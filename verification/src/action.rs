//! The application-level actions a component can request.

use vstd::prelude::*;

verus! {

/// One action requested by a component or the event loop.
#[derive(Debug, Clone, PartialEq, Eq)]
pub enum Action {
    Tick,
    Render,
    Resize(u16, u16),
    Play,
    Quit,
    Refresh,
    Error(String),
    Help,
    ScheduleIncrement,
    ScheduleDecrement,
    Increment(usize),
    Decrement(usize),
    SearchSong(String),
    CancelSearch,
    EnterProcessing,
    ExitProcessing,
    Update,
    ToggleHelp,
    TogglePlay,
    ToggleQueue,
    ToggleSearch,
}

} // verus!
