use task_manager::utilities::format_uptime;

#[test]
fn test_format_uptime_zero() {
    assert_eq!(format_uptime(0), "0:0    Total in secs: 0");
}

#[test]
fn test_format_uptime_one_hour() {
    assert_eq!(format_uptime(3600), "1:0    Total in secs: 3600");
}

#[test]
fn test_format_uptime_mixed() {
    // 2 hours, 30 minutes = 9000 seconds
    assert_eq!(format_uptime(9000), "2:30    Total in secs: 9000");
}

#[test]
fn test_format_uptime_minutes_only() {
    // 45 minutes = 2700 seconds
    assert_eq!(format_uptime(2700), "0:45    Total in secs: 2700");
}

#[test]
fn test_format_uptime_ignores_remaining_seconds() {
    // 1 hour, 1 minute, 1 second = 3661
    assert_eq!(format_uptime(3661), "1:1    Total in secs: 3661");
}

#[test]
fn test_format_uptime_large_reading() {
    // 1000 hours and 1 minute
    assert_eq!(format_uptime(3_600_060), "1000:1    Total in secs: 3600060");
}
