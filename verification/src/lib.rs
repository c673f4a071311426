//! Core logic of a system monitor: uptime formatting, rolling history
//! buffers with bounded display windows, per-tick deltas from cumulative
//! disk counters, the tab-selection state machine, and the process
//! table's columns. The surrounding process (OS sampling, rendering)
//! feeds these functions plain values and displays what they return.

pub mod history;
pub mod monitor;
pub mod process_table;
pub mod sampler;
pub mod utilities;
pub mod window;

pub use utilities::format_uptime;
pub use window::tail;
