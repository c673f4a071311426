//! Display formatting for raw readings.
//!
//! The monitor shows uptime as `hours:minutes` followed by the raw total,
//! for example `2:30    Total in secs: 9000` (four spaces, minutes not
//! zero-padded, seconds within the minute dropped from the prefix).

use vstd::prelude::*;

verus! {

/// The character for one decimal digit (`0 <= d < 10`).
pub open spec fn digit_char(d: int) -> char {
    ((d + 48) as u8) as char
}

/// The decimal numeral of `n`: most significant digit first, no leading
/// zeros except that zero itself renders as a single digit.
pub open spec fn decimal(n: nat) -> Seq<char>
    decreases n,
{
    if n < 10 {
        seq![digit_char(n as int)]
    } else {
        decimal(n / 10) + seq![digit_char((n % 10) as int)]
    }
}

/// The exact text `format_uptime` renders for a reading of `seconds`.
pub open spec fn uptime_text(seconds: nat) -> Seq<char> {
    decimal(seconds / 3600) + ":"@ + decimal((seconds % 3600) / 60)
        + "    Total in secs: "@ + decimal(seconds)
}

/// A one-character string slice for the digit `d`.
fn digit_str(d: u64) -> (s: &'static str)
    requires
        d < 10,
    ensures
        s@ == seq![digit_char(d as int)],
{
    proof {
        reveal_strlit("0");
        reveal_strlit("1");
        reveal_strlit("2");
        reveal_strlit("3");
        reveal_strlit("4");
        reveal_strlit("5");
        reveal_strlit("6");
        reveal_strlit("7");
        reveal_strlit("8");
        reveal_strlit("9");
    }
    match d {
        0 => "0",
        1 => "1",
        2 => "2",
        3 => "3",
        4 => "4",
        5 => "5",
        6 => "6",
        7 => "7",
        8 => "8",
        _ => "9",
    }
}

/// Renders `n` in decimal.
fn u64_to_dec(n: u64) -> (s: String)
    ensures
        s@ == decimal(n as nat),
    decreases n,
{
    if n < 10 {
        String::from_str(digit_str(n))
    } else {
        let mut s = u64_to_dec(n / 10);
        s.append(digit_str(n % 10));
        s
    }
}

/// Renders an uptime reading: whole hours, a colon, whole minutes within
/// the hour, then the raw total in seconds after a fixed label.
pub fn format_uptime(seconds: u64) -> (s: String)
    ensures
        s@ == uptime_text(seconds as nat),
{
    let hours: u64 = seconds / 3600;
    let minutes: u64 = (seconds % 3600) / 60;
    let mut s = u64_to_dec(hours);
    s.append(":");
    let m = u64_to_dec(minutes);
    s.append(m.as_str());
    s.append("    Total in secs: ");
    let t = u64_to_dec(seconds);
    s.append(t.as_str());
    s
}

} // verus!
