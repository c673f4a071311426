//! The process table's columns and row selection.
//!
//! Column widths, rendering and the table widget itself belong to the
//! caller; here stand the column kinds with their header labels and the
//! lookup that turns a selected process id into a row index.

use vstd::prelude::*;

verus! {

/// The columns of the process table, in display order: process id, name,
/// CPU share, memory, and disk traffic.
#[derive(Clone, Copy, PartialEq, Eq, Structural, Debug)]
pub enum ProcessColumnKind {
    Pid,
    Name,
    CpuUsage,
    MemoryUsage,
    DiskUsage,
}

impl ProcessColumnKind {
    /// The column's header label.
    pub fn label(&self) -> (s: &'static str)
        ensures
            s@ == (match self {
                ProcessColumnKind::Pid => "PID"@,
                ProcessColumnKind::Name => "Name"@,
                ProcessColumnKind::CpuUsage => "CPU %"@,
                ProcessColumnKind::MemoryUsage => "Memory"@,
                ProcessColumnKind::DiskUsage => "Disk (R+W)"@,
            }),
    {
        match self {
            ProcessColumnKind::Pid => "PID",
            ProcessColumnKind::Name => "Name",
            ProcessColumnKind::CpuUsage => "CPU %",
            ProcessColumnKind::MemoryUsage => "Memory",
            ProcessColumnKind::DiskUsage => "Disk (R+W)",
        }
    }
}

/// The row to highlight: the position of the first row whose process id
/// equals the selected id, if a selection exists and still has a row.
pub fn selected_row_index(pids: &[u32], selected: Option<u32>) -> (r: Option<usize>)
    ensures
        (match selected {
            Option::Some(pid) => (match r {
                Option::Some(i) => i < pids@.len() && pids@[i as int] == pid
                    && (forall|j: int| 0 <= j < i ==> pids@[j] != pid),
                Option::None => forall|j: int| 0 <= j < pids@.len() ==> pids@[j] != pid,
            }),
            Option::None => r is None,
        }),
{
    match selected {
        Option::Some(pid) => {
            let n: usize = pids.len();
            let mut k: usize = 0;
            while k < n
                invariant
                    selected == Option::<u32>::Some(pid),
                    n == pids@.len(),
                    k <= n,
                    forall|j: int| 0 <= j < k ==> pids@[j] != pid,
                decreases n - k,
            {
                if *vstd::slice::slice_index_get(pids, k) == pid {
                    return Option::Some(k);
                }
                k = k + 1;
            }
            Option::None
        },
        Option::None => Option::None,
    }
}

} // verus!
