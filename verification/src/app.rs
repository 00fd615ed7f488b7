//! The application core: the tick-driven playback orchestrator and the
//! focus router that hands key presses to the active pane first.
//!
//! The event loop outside the library polls input and a timer; each
//! cycle it locks the shared state, calls [`AppComponent::tick`] or
//! [`AppComponent::event`], and performs what either asks for — starting
//! audio playback of a video identifier, or running the provider
//! searches and reporting back through `search.finish_search` — off the
//! loop, so a tick never blocks.

use crate::components::{Lyrics, Queue, Timer};
use crate::events::{EventState, Key};
use crate::lyrics::spec_window;
use crate::search::{search_event_post, Search};
use crate::state::{Focus, GlobalState, InputMode, SongState};
use vstd::prelude::*;

verus! {

/// What the pause key does to the playback status. The audio backend
/// cannot stop an in-flight stream, so this is a clock matter only: a
/// paused song keeps sounding but stops advancing.
pub open spec fn spec_toggle(s: SongState) -> SongState {
    match s {
        SongState::Playing => SongState::Paused,
        SongState::Paused => SongState::Playing,
    }
}

/// The keys the top-level bindings act on for one focus.
pub open spec fn global_handles(focus: Focus, key: Key) -> bool {
    match focus {
        Focus::Queue => key == Key::Char('u') || key == Key::Esc,
        Focus::Help => key == Key::Esc || key == Key::Char('h'),
        Focus::Search => key == Key::Char('/') || key == Key::Esc,
        _ => key == Key::Esc || key == Key::Char(' ') || key == Key::Char('h') || key == Key::Char(
            'u',
        ) || key == Key::Char('/'),
    }
}

/// The application component: the panes and the tick accumulator. The
/// shared state is not owned here; the caller passes it in, holding
/// whatever lock guards it.
pub struct AppComponent {
    pub lyrics: Lyrics,
    pub queue: Queue,
    pub timer: Timer,
    pub search: Search,
    /// Milliseconds accumulated toward the next whole session second.
    pub tick_accumulator: u64,
}

impl AppComponent {
    /// The accumulator stays below one second and the pane is well
    /// formed.
    pub open spec fn wf(&self) -> bool {
        &&& self.search.wf()
        &&& self.tick_accumulator < 1000
    }

    /// A fresh application: empty search pane, nothing accumulated.
    pub fn new() -> (r: Self)
        ensures
            r.wf(),
            r.search.is_reset(),
            r.tick_accumulator == 0,
    {
        AppComponent {
            lyrics: Lyrics::new(),
            queue: Queue::new(),
            timer: Timer::new(),
            search: Search::new(),
            tick_accumulator: 0,
        }
    }

    /// One tick of the orchestrator, `tick_rate_ms` milliseconds after
    /// the previous one. In order:
    ///
    /// 1. the tick is accumulated, and each whole second reached moves
    ///    from the accumulator into the session clock;
    /// 2. with nothing playing and songs waiting, the queue's head
    ///    becomes the current song at zero elapsed time, playing, its
    ///    lyric window — when it has a lyric table — is computed for
    ///    time zero, and its video identifier is returned for the caller
    ///    to start audio playback;
    /// 3. otherwise, a playing song advances by the tick and its lyric
    ///    window is recomputed; a song without a lyric table leaves the
    ///    window as it stands rather than blanking it.
    ///
    /// A paused or idle state changes nothing beyond the clock. The
    /// preconditions on the three sums are the type's own limits; the
    /// caller checks them before calling.
    pub fn tick(&mut self, state: &mut GlobalState, tick_rate_ms: u64) -> (started: Option<String>)
        requires
            old(self).wf(),
            old(state).wf(),
            tick_rate_ms <= u64::MAX - 999,
            old(state).session_time_elapsed + (old(self).tick_accumulator + tick_rate_ms) / 1000
                <= u64::MAX,
            old(state).current_song_elapsed + tick_rate_ms <= u64::MAX,
        ensures
            final(self).wf(),
            final(state).wf(),
            final(self).search == old(self).search,
            final(self).tick_accumulator == (old(self).tick_accumulator + tick_rate_ms) % 1000,
            final(state).session_time_elapsed == old(state).session_time_elapsed + (old(self).tick_accumulator + tick_rate_ms) / 1000,
            final(state).focus == old(state).focus,
            final(state).mode == old(state).mode,
            (old(state).current_song is None && old(state).song_list@.len() > 0) ==> ({
                let head = old(state).song_list@[0];
                &&& final(state).current_song == Some(head)
                &&& final(state).song_list@ == old(state).song_list@.drop_first()
                &&& final(state).current_song_elapsed == 0
                &&& final(state).song_state == SongState::Playing
                &&& (started matches Some(id) && id@ == head.video_id@)
                &&& match head.lyric_map {
                    Some(m) => final(state).current_lyrics.deep_view() == spec_window(m@, 0),
                    None => final(state).current_lyrics == old(state).current_lyrics,
                }
            }),
            (old(state).current_song is Some && old(state).song_state == SongState::Playing) ==> ({
                let elapsed = (old(state).current_song_elapsed + tick_rate_ms) as u64;
                &&& final(state).current_song == old(state).current_song
                &&& final(state).song_list == old(state).song_list
                &&& final(state).current_song_elapsed == elapsed
                &&& final(state).song_state == old(state).song_state
                &&& started is None
                &&& match old(state).current_song {
                    Some(song) => match song.lyric_map {
                        Some(m) => final(state).current_lyrics.deep_view() == spec_window(
                            m@,
                            elapsed,
                        ),
                        None => final(state).current_lyrics == old(state).current_lyrics,
                    },
                    None => true,
                }
            }),
            ((old(state).current_song is None && old(state).song_list@.len() == 0) || (old(state).current_song is Some && old(state).song_state == SongState::Paused)) ==> ({
                &&& final(state).current_song == old(state).current_song
                &&& final(state).song_list == old(state).song_list
                &&& final(state).current_song_elapsed == old(state).current_song_elapsed
                &&& final(state).song_state == old(state).song_state
                &&& final(state).current_lyrics == old(state).current_lyrics
                &&& started is None
            }),
    {
        self.tick_accumulator = self.tick_accumulator + tick_rate_ms;
        if self.tick_accumulator >= 1000 {
            let seconds = self.tick_accumulator / 1000;
            state.session_time_elapsed = state.session_time_elapsed + seconds;
            self.tick_accumulator = self.tick_accumulator % 1000;
        }
        if state.current_song.is_none() && !state.song_list.is_empty() {
            let song = state.song_list.remove(0);
            proof {
                assert(old(state).song_list@[0].wf());
                assert(state.song_list@ =~= old(state).song_list@.drop_first());
            }
            let started_id = song.video_id.clone();
            let window: Option<Vec<String>> = match &song.lyric_map {
                Some(m) => Some(m.lookup_window(0)),
                None => None,
            };
            state.current_song = Some(song);
            state.current_song_elapsed = 0;
            state.song_state = SongState::Playing;
            if let Some(w) = window {
                state.current_lyrics = w;
            }
            return Some(started_id);
        }
        if matches!(state.song_state, SongState::Playing) && state.current_song.is_some() {
            state.current_song_elapsed = state.current_song_elapsed + tick_rate_ms;
            let window: Option<Vec<String>> = match &state.current_song {
                Some(song) => match &song.lyric_map {
                    Some(m) => Some(m.lookup_window(state.current_song_elapsed)),
                    None => None,
                },
                None => None,
            };
            if let Some(w) = window {
                state.current_lyrics = w;
            }
        }
        None
    }

    /// Route one key press by focus, child pane first: the focused
    /// pane sees the event and, if it consumes it, no global binding
    /// fires; otherwise the event falls through to the bindings of the
    /// focused region. The returned flag asks the caller to run the
    /// provider searches (see [`Search::event`]).
    ///
    /// The global bindings: from the queue, `u` or `Esc` goes home;
    /// from help, `Esc` or `h` goes home; from the search pane, `/` or
    /// `Esc` goes home; from home, `Esc` stays home, space toggles
    /// play/pause, `h` opens help, `u` the queue, and `/` the search
    /// pane in input mode. Global bindings report the event as not
    /// consumed, so the caller's own quit key still sees it.
    pub fn event(&mut self, state: &mut GlobalState, key: Key) -> (r: (EventState, bool))
        requires
            old(self).wf(),
            old(state).wf(),
        ensures
            final(self).wf(),
            final(state).wf(),
            final(self).tick_accumulator == old(self).tick_accumulator,
            old(state).focus != Focus::Search ==> final(self).search == old(self).search,
            old(state).focus == Focus::Queue ==> ({
                &&& key == Key::Char('/') ==> *final(state) == (GlobalState {
                    focus: Focus::Search,
                    mode: InputMode::Input,
                    ..*old(state)
                }) && r == (EventState::Consumed, false)
                &&& (key == Key::Char('u') || key == Key::Esc) ==> *final(state) == (GlobalState {
                    focus: Focus::Home,
                    ..*old(state)
                }) && r == (EventState::NotConsumed, false)
                &&& (key != Key::Char('/') && key != Key::Char('u') && key != Key::Esc) ==> *final(state) == *old(state) && r == (EventState::NotConsumed, false)
            }),
            old(state).focus == Focus::Help ==> ({
                &&& (key == Key::Esc || key == Key::Char('h')) ==> *final(state) == (GlobalState {
                    focus: Focus::Home,
                    ..*old(state)
                })
                &&& !(key == Key::Esc || key == Key::Char('h')) ==> *final(state) == *old(state)
                &&& r == (EventState::NotConsumed, false)
            }),
            old(state).focus == Focus::Search ==> search_event_post(
                old(self).search,
                *old(state),
                key,
                final(self).search,
                *final(state),
                r,
            ),
            (old(state).focus == Focus::Home || old(state).focus == Focus::Timer) ==> ({
                &&& key == Key::Esc ==> *final(state) == (GlobalState {
                    focus: Focus::Home,
                    ..*old(state)
                })
                &&& key == Key::Char(' ') ==> *final(state) == (GlobalState {
                    song_state: spec_toggle(old(state).song_state),
                    ..*old(state)
                })
                &&& key == Key::Char('h') ==> *final(state) == (GlobalState {
                    focus: Focus::Help,
                    ..*old(state)
                })
                &&& key == Key::Char('u') ==> *final(state) == (GlobalState {
                    focus: Focus::Queue,
                    ..*old(state)
                })
                &&& key == Key::Char('/') ==> *final(state) == (GlobalState {
                    focus: Focus::Search,
                    mode: InputMode::Input,
                    ..*old(state)
                })
                &&& !global_handles(old(state).focus, key) ==> *final(state) == *old(state)
                &&& r == (EventState::NotConsumed, false)
            }),
    {
        match state.focus {
            Focus::Queue => {
                let qr = self.queue.event(state, key);
                if qr.is_consumed() {
                    return (EventState::Consumed, false);
                }
                match key {
                    Key::Char(c) => {
                        if c == 'u' {
                            state.focus = Focus::Home;
                        }
                    },
                    Key::Esc => {
                        state.focus = Focus::Home;
                    },
                    _ => {},
                }
                (EventState::NotConsumed, false)
            },
            Focus::Search => {
                let (sr, req) = self.search.event(state, key);
                if sr.is_consumed() {
                    return (EventState::Consumed, req);
                }
                match key {
                    Key::Char(c) => {
                        if c == '/' {
                            state.focus = Focus::Home;
                        }
                    },
                    Key::Esc => {
                        state.focus = Focus::Home;
                    },
                    _ => {},
                }
                (sr, req)
            },
            Focus::Help => {
                match key {
                    Key::Char(c) => {
                        if c == 'h' {
                            state.focus = Focus::Home;
                        }
                    },
                    Key::Esc => {
                        state.focus = Focus::Home;
                    },
                    _ => {},
                }
                (EventState::NotConsumed, false)
            },
            _ => {
                match key {
                    Key::Esc => {
                        state.focus = Focus::Home;
                    },
                    Key::Char(c) => {
                        if c == ' ' {
                            state.song_state = match state.song_state {
                                SongState::Playing => SongState::Paused,
                                SongState::Paused => SongState::Playing,
                            };
                        } else if c == 'h' {
                            state.focus = Focus::Help;
                        } else if c == 'u' {
                            state.focus = Focus::Queue;
                        } else if c == '/' {
                            state.focus = Focus::Search;
                            state.mode = InputMode::Input;
                        }
                    },
                    _ => {},
                }
                (EventState::NotConsumed, false)
            },
        }
    }
}

} // verus!


