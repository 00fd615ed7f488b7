//! Input events as the router sees them: plain key presses, and whether
//! a component consumed one.

use vstd::prelude::*;

verus! {

/// A key press handed in from the terminal.
#[derive(Clone, Copy, Debug, PartialEq, Eq, Structural)]
pub enum Key {
    Char(char),
    Esc,
    Enter,
    Tab,
    Backspace,
    Up,
    Down,
}

/// Whether a component consumed an input event; an unconsumed event
/// falls through to the parent bindings.
#[derive(Clone, Copy, Debug, PartialEq, Eq, Structural)]
pub enum EventState {
    Consumed,
    NotConsumed,
}

impl EventState {
    /// Whether the event was consumed.
    pub fn is_consumed(&self) -> (b: bool)
        ensures
            b == (*self == EventState::Consumed),
    {
        matches!(self, EventState::Consumed)
    }
}

} // verus!
