//! The monitor's update loop, split from its surroundings.
//!
//! A message is either the periodic tick or a navigation event. `update`
//! decides what each message does to the core state and tells the caller
//! what remains to be done: gather fresh readings on a tick, redraw after
//! a selection, or report an unavailable view. The caller performs the
//! OS queries and hands the readings back as plain values.

use vstd::prelude::*;
use crate::sampler::DiskCounterState;
use crate::utilities::{format_uptime, uptime_text};

verus! {

/// Which detail view is active. Changed only by selection messages.
#[derive(Clone, Copy, PartialEq, Eq, Structural, Debug)]
pub enum SelectedTab {
    Cpu,
    Memory,
    Disk,
}

/// One event of the update loop: the periodic tick, a tab selection, or
/// a request to open a view.
#[derive(Clone, Copy, PartialEq, Eq, Structural, Debug)]
pub enum Message {
    Tick,
    SelectCpu,
    SelectMemory,
    SelectDisk,
    OpenProcesses,
    OpenPerformance,
}

/// What the caller must do after `update` has handled a message.
#[derive(Clone, Copy, PartialEq, Eq, Structural, Debug)]
pub enum Action {
    /// Refresh the OS counters and record the new readings.
    Sample,
    /// The selection changed; render the newly selected view.
    Redraw,
    /// The requested view is not available; show that instead of
    /// terminating.
    NotAvailable,
}

/// The sampling core of the application state: the active tab, the last
/// formatted uptime reading, and the previous disk counter reading. The
/// metric histories and the raw OS handles live with the caller.
pub struct State {
    pub selected_tab: SelectedTab,
    pub uptime: String,
    pub disk: DiskCounterState,
}

impl State {
    /// The state at startup: CPU view active, no uptime reading yet,
    /// zeroed disk counters.
    pub fn new() -> (s: Self)
        ensures
            s.selected_tab == SelectedTab::Cpu,
            s.uptime@ == Seq::<char>::empty(),
            s.disk.prev_read == 0,
            s.disk.prev_written == 0,
    {
        State {
            selected_tab: SelectedTab::Cpu,
            uptime: String::new(),
            disk: DiskCounterState::new(),
        }
    }

    /// Stores this tick's uptime reading, rendered for display. The
    /// selection and the disk counters are untouched; the caller records
    /// disk readings through `DiskCounterState::advance`.
    pub fn record_uptime(&mut self, uptime_seconds: u64)
        ensures
            final(self).uptime@ == uptime_text(uptime_seconds as nat),
            final(self).selected_tab == old(self).selected_tab,
            final(self).disk == old(self).disk,
    {
        self.uptime = format_uptime(uptime_seconds);
    }
}

/// Handles one message: a tick asks the caller to sample, a selection
/// switches the active tab, and the unimplemented views are reported as
/// not available rather than aborting. Nothing else of the state moves.
pub fn update(state: &mut State, message: Message) -> (action: Action)
    ensures
        action == (match message {
            Message::Tick => Action::Sample,
            Message::SelectCpu => Action::Redraw,
            Message::SelectMemory => Action::Redraw,
            Message::SelectDisk => Action::Redraw,
            Message::OpenProcesses => Action::NotAvailable,
            Message::OpenPerformance => Action::NotAvailable,
        }),
        final(state).selected_tab == (match message {
            Message::SelectCpu => SelectedTab::Cpu,
            Message::SelectMemory => SelectedTab::Memory,
            Message::SelectDisk => SelectedTab::Disk,
            _ => old(state).selected_tab,
        }),
        final(state).uptime == old(state).uptime,
        final(state).disk == old(state).disk,
{
    match message {
        Message::Tick => Action::Sample,
        Message::SelectCpu => {
            state.selected_tab = SelectedTab::Cpu;
            Action::Redraw
        },
        Message::SelectMemory => {
            state.selected_tab = SelectedTab::Memory;
            Action::Redraw
        },
        Message::SelectDisk => {
            state.selected_tab = SelectedTab::Disk;
            Action::Redraw
        },
        Message::OpenProcesses => Action::NotAvailable,
        Message::OpenPerformance => Action::NotAvailable,
    }
}

} // verus!
