//! The single shared application state and its queue discipline. The
//! event loop outside the library holds it behind a lock and hands the
//! library a mutable borrow for each read-modify-write step.

use crate::song::{Song, SongList};
use vstd::prelude::*;

verus! {

/// Whether key presses navigate or feed the search input.
#[derive(Debug, Clone, Copy, PartialEq, Eq, Structural)]
pub enum InputMode {
    Nav,
    Input,
}

/// Which region of the interface owns keyboard input.
#[derive(Debug, Clone, Copy, PartialEq, Eq, Structural)]
pub enum Focus {
    Help,
    Home,
    Queue,
    Search,
    Timer,
}

/// Whether the current song is advancing. A pause is a state-machine
/// fact only: the audio backend cannot stop an in-flight stream, so a
/// paused session keeps sounding while its clock stands still.
#[derive(Debug, Clone, Copy, PartialEq, Eq, Structural)]
pub enum SongState {
    Playing,
    Paused,
}

/// The one shared record: what plays, how long it has played, what is
/// queued, what the lyric pane shows, and where input goes.
#[derive(Debug, Clone)]
pub struct GlobalState {
    /// The lyric window: previous, current and next line.
    pub current_lyrics: Vec<String>,
    pub current_song: Option<Song>,
    /// Milliseconds the current song has been playing.
    pub current_song_elapsed: u64,
    pub focus: Focus,
    pub mode: InputMode,
    /// Whole seconds since the session started playing anything.
    pub session_time_elapsed: u64,
    /// Songs awaiting playback, head first.
    pub song_list: SongList,
    pub song_state: SongState,
}

impl GlobalState {
    /// Every held song is well formed.
    pub open spec fn wf(&self) -> bool {
        &&& match self.current_song {
            Some(s) => s.wf(),
            None => true,
        }
        &&& forall|i: int| 0 <= i < self.song_list@.len() ==> (#[trigger] self.song_list@[i]).wf()
    }

    /// What a fresh state holds: nothing playing, nothing queued, home
    /// focus, navigation mode, paused.
    pub open spec fn is_initial(&self) -> bool {
        &&& self.current_lyrics@.len() == 0
        &&& self.current_song is None
        &&& self.current_song_elapsed == 0
        &&& self.focus == Focus::Home
        &&& self.mode == InputMode::Nav
        &&& self.session_time_elapsed == 0
        &&& self.song_list@.len() == 0
        &&& self.song_state == SongState::Paused
    }

    /// The idle starting state.
    pub fn new() -> (r: Self)
        ensures
            r.is_initial(),
            r.wf(),
    {
        Self::default()
    }

    /// The idle starting state.
    pub fn default() -> (r: Self)
        ensures
            r.is_initial(),
            r.wf(),
    {
        GlobalState {
            current_lyrics: Vec::new(),
            current_song: None,
            current_song_elapsed: 0,
            focus: Focus::Home,
            mode: InputMode::Nav,
            session_time_elapsed: 0,
            song_list: Vec::new(),
            song_state: SongState::Paused,
        }
    }

    /// Whether the orchestrator owes a dequeue: nothing playing while
    /// songs wait.
    pub fn has_next_song(&self) -> (b: bool)
        ensures
            b == (self.current_song is None && self.song_list@.len() > 0),
    {
        self.current_song.is_none() && !self.song_list.is_empty()
    }

    /// Append a song at the tail of the queue.
    pub fn enqueue(&mut self, song: Song)
        requires
            old(self).wf(),
            song.wf(),
        ensures
            final(self).wf(),
            final(self).song_list@ == old(self).song_list@.push(song),
            final(self).current_lyrics == old(self).current_lyrics,
            final(self).current_song == old(self).current_song,
            final(self).current_song_elapsed == old(self).current_song_elapsed,
            final(self).focus == old(self).focus,
            final(self).mode == old(self).mode,
            final(self).session_time_elapsed == old(self).session_time_elapsed,
            final(self).song_state == old(self).song_state,
    {
        self.song_list.push(song);
    }

    /// Remove and return the queue's head, or nothing when it is empty.
    pub fn dequeue_front(&mut self) -> (r: Option<Song>)
        requires
            old(self).wf(),
        ensures
            final(self).wf(),
            old(self).song_list@.len() == 0 ==> r is None && *final(self) == *old(self),
            old(self).song_list@.len() > 0 ==> r == Some(old(self).song_list@[0])
                && final(self).song_list@ == old(self).song_list@.drop_first(),
            final(self).current_lyrics == old(self).current_lyrics,
            final(self).current_song == old(self).current_song,
            final(self).current_song_elapsed == old(self).current_song_elapsed,
            final(self).focus == old(self).focus,
            final(self).mode == old(self).mode,
            final(self).session_time_elapsed == old(self).session_time_elapsed,
            final(self).song_state == old(self).song_state,
    {
        if self.song_list.is_empty() {
            None
        } else {
            let song = self.song_list.remove(0);
            proof {
                assert(self.song_list@ =~= old(self).song_list@.drop_first());
            }
            Some(song)
        }
    }

    /// The queue's head, left in place, or nothing when it is empty.
    pub fn peek_front(&self) -> (r: Option<&Song>)
        ensures
            self.song_list@.len() == 0 ==> r is None,
            self.song_list@.len() > 0 ==> (r matches Some(s) && *s == self.song_list@[0]),
    {
        if self.song_list.is_empty() {
            None
        } else {
            Some(&self.song_list[0])
        }
    }
}

} // verus!
