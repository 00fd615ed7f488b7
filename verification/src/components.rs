//! The small interface components around the lyric pane: the queue view,
//! the session timer, and a selectable list. Drawing happens outside the
//! library; what is computed or decided here is verified.

use crate::events::{EventState, Key};
use crate::state::{Focus, GlobalState, InputMode};
use vstd::prelude::*;

verus! {

/// A component whose state can be cleared back to fresh.
pub trait ResettableComponent {
    fn reset(&mut self);
}

/// The queue pane. It consumes one key of its own: `/` jumps to the
/// search pane in input mode.
pub struct Queue;

impl Queue {
    pub fn new() -> (r: Self) {
        Queue
    }

    /// Handle one key press while the queue pane is focused: `/` opens
    /// the search pane in input mode and is consumed; everything else
    /// falls through.
    pub fn event(&mut self, state: &mut GlobalState, key: Key) -> (r: EventState)
        requires
            old(state).wf(),
        ensures
            final(state).wf(),
            key == Key::Char('/') ==> *final(state) == (GlobalState {
                focus: Focus::Search,
                mode: InputMode::Input,
                ..*old(state)
            }) && r == EventState::Consumed,
            key != Key::Char('/') ==> *final(state) == *old(state) && r == EventState::NotConsumed,
    {
        match key {
            Key::Char(c) => {
                if c == '/' {
                    state.focus = Focus::Search;
                    state.mode = InputMode::Input;
                    EventState::Consumed
                } else {
                    EventState::NotConsumed
                }
            },
            _ => EventState::NotConsumed,
        }
    }
}

/// What the timer pane counts.
#[derive(Debug, Clone, PartialEq, Eq, Structural)]
pub enum Ticker {
    SongRemainingTicker,
}

/// The session timer pane: it shows how long the session has been
/// singing and how long the queue's head still has to run. The numbers
/// it displays are computed here.
pub struct Timer;

impl Timer {
    pub fn new() -> (r: Self) {
        Timer
    }

    /// The session clock as minutes and seconds.
    pub fn session_display(seconds: u64) -> (r: (u64, u64))
        ensures
            r.0 == seconds / 60,
            r.1 == seconds % 60,
    {
        (seconds / 60, seconds % 60)
    }

    /// Milliseconds left of a song, zero once the elapsed time has
    /// passed its duration.
    pub fn remaining_ms(duration_ms: u64, elapsed_ms: u64) -> (r: u64)
        ensures
            r == if elapsed_ms <= duration_ms {
                duration_ms - elapsed_ms
            } else {
                0
            },
    {
        if elapsed_ms <= duration_ms {
            duration_ms - elapsed_ms
        } else {
            0
        }
    }

    /// A millisecond count as minutes and seconds for display.
    pub fn display_parts(ms: u64) -> (r: (u64, u64))
        ensures
            r.0 == ms / 60000,
            r.1 == (ms % 60000) / 1000,
    {
        (ms / 60000, (ms % 60000) / 1000)
    }
}

/// The lyric pane. Its window text lives in the shared state; drawing
/// happens outside the library.
pub struct Lyrics;

impl Lyrics {
    pub fn new() -> (r: Self) {
        Lyrics
    }
}

/// A list of display lines with one remembered selection.
#[derive(Debug, Clone)]
pub struct StatefulList {
    pub items: Vec<String>,
    pub selected: Option<usize>,
}

impl StatefulList {
    /// A list over the given lines, with a caller-chosen selection or
    /// none.
    pub fn with_items(items: Vec<String>, selected: Option<usize>) -> (r: Self)
        ensures
            r.items == items,
            r.selected == selected,
    {
        StatefulList { items, selected }
    }

    /// Select the first line.
    pub fn first(&mut self)
        ensures
            *final(self) == (StatefulList { selected: Some(0usize), ..*old(self) }),
    {
        self.selected = Some(0);
    }

    /// Select the next line, wrapping from the last back to the first;
    /// with no selection yet, select the first.
    pub fn next(&mut self)
        ensures
            final(self).items == old(self).items,
            final(self).selected == Some(
                match old(self).selected {
                    Some(i) => if i + 1 >= old(self).items@.len() {
                        0usize
                    } else {
                        (i + 1) as usize
                    },
                    None => 0usize,
                },
            ),
    {
        let i = match self.selected {
            Some(i) => {
                if i >= self.items.len().saturating_sub(1) {
                    0
                } else {
                    i + 1
                }
            },
            None => 0,
        };
        self.selected = Some(i);
    }

    /// Select the previous line, wrapping from the first to the last;
    /// with no selection yet, select the first.
    pub fn previous(&mut self)
        ensures
            final(self).items == old(self).items,
            final(self).selected == Some(
                match old(self).selected {
                    Some(i) => if i == 0 {
                        (if old(self).items@.len() == 0 {
                            0int
                        } else {
                            old(self).items@.len() - 1
                        }) as usize
                    } else {
                        (i - 1) as usize
                    },
                    None => 0usize,
                },
            ),
    {
        let i = match self.selected {
            Some(i) => {
                if i == 0 {
                    self.items.len().saturating_sub(1)
                } else {
                    i - 1
                }
            },
            None => 0,
        };
        self.selected = Some(i);
    }
}

impl ResettableComponent for StatefulList {
    /// Drop the lines and the selection.
    fn reset(&mut self) {
        self.items.clear();
        self.selected = None;
    }
}

/// The list's lines, for display.
pub fn get_list_items(listable: StatefulList) -> (r: Vec<String>)
    ensures
        r == listable.items,
{
    listable.items
}

} // verus!
