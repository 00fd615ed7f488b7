//! The search pane: a query buffer, the two result lists with their
//! selections, and the song being composed from one pick of each.
//!
//! The pane handles its own keys first; what it does not consume falls
//! through to the focus router. Running the provider searches needs the
//! network, so a submitted query is handed back to the caller, which
//! fetches and then reports the results to [`Search::finish_search`].

use crate::lyrics::LyricsMap;
use crate::parse::{all_lines_ok, parse, spec_lines, spec_parse};
use crate::providers::{AudioResult, LyricsResult};
use crate::song::{is_with_ar, song_views_eq, Song};
use crate::state::{Focus, GlobalState, InputMode};
use crate::events::{EventState, Key};
use vstd::prelude::*;

verus! {

/// Which part of the search pane owns input.
#[derive(Debug, Clone, Copy, PartialEq, Eq, Structural)]
pub enum SearchFocus {
    Input,
    Audio,
    Lyrics,
}

/// A selection move within a result list.
#[derive(Debug, Clone, Copy, PartialEq, Eq, Structural)]
pub enum NavDir {
    Up,
    Down,
}

/// The next pane focus under the cycle key.
pub open spec fn spec_cycle(f: SearchFocus) -> SearchFocus {
    match f {
        SearchFocus::Input => SearchFocus::Audio,
        SearchFocus::Audio => SearchFocus::Lyrics,
        SearchFocus::Lyrics => SearchFocus::Input,
    }
}

/// One selection step: up stops at the first entry, down at the largest
/// index; no selection stays none.
pub open spec fn spec_nav(sel: Option<usize>, dir: NavDir) -> Option<usize> {
    match sel {
        None => None,
        Some(i) => Some(
            match dir {
                NavDir::Up => if i == 0 {
                    0usize
                } else {
                    (i - 1) as usize
                },
                NavDir::Down => if i == usize::MAX {
                    usize::MAX
                } else {
                    (i + 1) as usize
                },
            },
        ),
    }
}

/// The keys the pane consumes or acts on itself, by pane focus.
pub open spec fn pane_handles(f: SearchFocus, key: Key) -> bool {
    ||| key == Key::Tab
    ||| key == Key::Esc
    ||| key == Key::Char('/')
    ||| (f == SearchFocus::Input && (key matches Key::Char(_) || key == Key::Backspace || key
        == Key::Enter))
    ||| (f != SearchFocus::Input && (key == Key::Up || key == Key::Down || key == Key::Enter))
}

/// Everything one key press does to the pane and the shared state:
/// `pre`/`post` are the pane before and after, `pre_g`/`post_g` the
/// shared state, and `r` the consumption flag and search request.
pub open spec fn search_event_post(
    pre: Search,
    pre_g: GlobalState,
    key: Key,
    post: Search,
    post_g: GlobalState,
    r: (EventState, bool),
) -> bool {
    &&& (key == Key::Tab ==> post_g == pre_g && r == (EventState::NotConsumed, false) && post == (
    Search { focus: spec_cycle(pre.focus), ..pre }))
    &&& (pre.focus != SearchFocus::Input && key == Key::Char('/') ==> post_g == (GlobalState {
        mode: InputMode::Input,
        ..pre_g
    }) && post == (Search { focus: SearchFocus::Input, ..pre }) && r == (
        EventState::Consumed,
        false,
    ))
    &&& (pre.focus != SearchFocus::Input && key == Key::Esc ==> post_g == pre_g && post.is_reset()
        && r == (EventState::Consumed, false))
    &&& (pre.focus == SearchFocus::Input && key == Key::Char('/') ==> post_g == (GlobalState {
        mode: InputMode::Input,
        ..pre_g
    }) && post.query@.len() == 0 && post == (Search { query: post.query, ..pre }) && r == (
        EventState::Consumed,
        false,
    ))
    &&& (pre.focus == SearchFocus::Input && key == Key::Esc && pre.query@.len() > 0 ==> post_g
        == pre_g && post.query@.len() == 0 && post == (Search { query: post.query, ..pre }) && r
        == (EventState::Consumed, false))
    &&& (pre.focus == SearchFocus::Input && key == Key::Esc && pre.query@.len() == 0 ==> post_g == (
    GlobalState { focus: Focus::Home, ..pre_g }) && post == (Search {
        audio_selected: None,
        lyrics_selected: None,
        ..pre
    }) && r == (EventState::Consumed, false))
    &&& (pre.focus == SearchFocus::Input && key == Key::Backspace ==> post_g == pre_g
        && post.query@ == (if pre.query@.len() == 0 {
        pre.query@
    } else {
        pre.query@.drop_last()
    }) && post == (Search { query: post.query, ..pre }) && r == (EventState::Consumed, false))
    &&& (forall|c: char|
        pre.focus == SearchFocus::Input && key == Key::Char(c) && c != '/' ==> post.query@
            == pre.query@.push(c) && post == (Search { query: post.query, ..pre }) && post_g
            == pre_g && r == (EventState::Consumed, false))
    &&& (pre.focus == SearchFocus::Input && key == Key::Enter ==> post_g == pre_g && post == pre
        && r == (EventState::Consumed, true))
    &&& (pre.focus == SearchFocus::Audio && key == Key::Up ==> post_g == pre_g && post == (Search {
        audio_selected: spec_nav(pre.audio_selected, NavDir::Up),
        ..pre
    }) && r == (EventState::Consumed, false))
    &&& (pre.focus == SearchFocus::Audio && key == Key::Down ==> post_g == pre_g && post == (
    Search { audio_selected: spec_nav(pre.audio_selected, NavDir::Down), ..pre }) && r == (
        EventState::Consumed,
        false,
    ))
    &&& (pre.focus == SearchFocus::Lyrics && key == Key::Up ==> post_g == pre_g && post == (
    Search { lyrics_selected: spec_nav(pre.lyrics_selected, NavDir::Up), ..pre }) && r == (
        EventState::Consumed,
        false,
    ))
    &&& (pre.focus == SearchFocus::Lyrics && key == Key::Down ==> post_g == pre_g && post == (
    Search { lyrics_selected: spec_nav(pre.lyrics_selected, NavDir::Down), ..pre }) && r == (
        EventState::Consumed,
        false,
    ))
    &&& (pre.focus == SearchFocus::Audio && key == Key::Enter ==> post_g == pre_g && r == (
        EventState::Consumed,
        false,
    ) && post.focus == SearchFocus::Lyrics && post.lyrics_selected == (
    if pre.lyrics_selected is None {
        Some(0usize)
    } else {
        pre.lyrics_selected
    }) && post.audio_results == pre.audio_results && post.audio_selected == pre.audio_selected
        && post.lyric_results == pre.lyric_results && post.query == pre.query && (
    match pre.audio_selected {
        Some(i) => if i < pre.audio_results@.len() {
            is_with_ar(post.song, pre.song, pre.audio_results@[i as int])
        } else {
            post.song == pre.song
        },
        None => post.song == pre.song,
    }))
    &&& (pre.focus == SearchFocus::Lyrics && key == Key::Enter ==> r == (
        EventState::Consumed,
        false,
    ) && post.is_reset() && post_g.mode == InputMode::Nav && post_g.song_list@.len()
        == pre_g.song_list@.len() + 1 && post_g.song_list@.drop_last() == pre_g.song_list@
        && post_g.focus == (if pre_g.song_list@.len() + 1 > 1 {
        Focus::Queue
    } else {
        Focus::Home
    }) && post_g.current_lyrics == pre_g.current_lyrics && post_g.current_song
        == pre_g.current_song && post_g.current_song_elapsed == pre_g.current_song_elapsed
        && post_g.session_time_elapsed == pre_g.session_time_elapsed && post_g.song_state
        == pre_g.song_state && ({
        let composed = post_g.song_list@.last();
        match pre.lyrics_selected {
            Some(i) => if i < pre.lyric_results@.len() {
                {
                    let lr = pre.lyric_results@[i as int];
                    &&& composed.lyric_id@ == lr.id@
                    &&& composed.video_id@ == pre.song.video_id@
                    &&& composed.title@ == lr.title@
                    &&& composed.artist@ == lr.artist@
                    &&& composed.duration_ms == pre.song.duration_ms
                    &&& composed.synced_lyrics@ == lr.synced_lyrics@
                    &&& if all_lines_ok(spec_lines(lr.synced_lyrics@)) {
                        composed.lyric_map matches Some(m) && m.to_map() == spec_parse(
                            spec_lines(lr.synced_lyrics@),
                        )
                    } else {
                        composed.lyric_map is None
                    }
                }
            } else {
                song_views_eq(composed, pre.song)
            },
            None => song_views_eq(composed, pre.song),
        }
    }))
    &&& (!pane_handles(pre.focus, key) ==> post_g == pre_g && post == pre && r == (
        EventState::NotConsumed,
        false,
    ))
}

/// The search pane's own state.
#[derive(Debug)]
pub struct Search {
    pub audio_results: Vec<AudioResult>,
    pub audio_selected: Option<usize>,
    pub lyric_results: Vec<LyricsResult>,
    pub lyrics_selected: Option<usize>,
    /// The song under composition: audio pick and lyric pick merged.
    pub song: Song,
    pub focus: SearchFocus,
    /// The query text, one character per entry.
    pub query: Vec<char>,
}

impl Search {
    /// The pane is well formed when its song under composition is.
    pub open spec fn wf(&self) -> bool {
        self.song.wf()
    }

    /// A fresh pane: no results, no selections, blank song, input focus,
    /// empty query.
    pub open spec fn is_reset(&self) -> bool {
        &&& self.audio_results@.len() == 0
        &&& self.audio_selected is None
        &&& self.lyric_results@.len() == 0
        &&& self.lyrics_selected is None
        &&& self.song.is_blank()
        &&& self.focus == SearchFocus::Input
        &&& self.query@.len() == 0
    }

    /// An empty search pane.
    pub fn new() -> (r: Self)
        ensures
            r.is_reset(),
            r.wf(),
    {
        Search {
            audio_results: Vec::new(),
            audio_selected: None,
            lyric_results: Vec::new(),
            lyrics_selected: None,
            song: Song::new(),
            focus: SearchFocus::Input,
            query: Vec::new(),
        }
    }

    /// Clear the pane back to a fresh one.
    pub fn reset(&mut self)
        ensures
            final(self).is_reset(),
            final(self).wf(),
    {
        self.audio_results = Vec::new();
        self.audio_selected = None;
        self.lyric_results = Vec::new();
        self.lyrics_selected = None;
        self.song = Song::new();
        self.focus = SearchFocus::Input;
        self.query = Vec::new();
    }

    /// The current query text.
    pub fn query(&self) -> (r: &Vec<char>)
        ensures
            r@ == self.query@,
    {
        &self.query
    }

    /// Keep a fresh set of audio results; nothing else moves.
    pub fn with_audio_results(&mut self, res: Vec<AudioResult>)
        ensures
            final(self).audio_results == res,
            *final(self) == (Search { audio_results: final(self).audio_results, ..*old(self) }),
    {
        self.audio_results = res;
    }

    /// Keep a fresh set of lyric results; nothing else moves.
    pub fn with_lyrics_results(&mut self, res: Vec<LyricsResult>)
        ensures
            final(self).lyric_results == res,
            *final(self) == (Search { lyric_results: final(self).lyric_results, ..*old(self) }),
    {
        self.lyric_results = res;
    }

    /// Move the selection of one result list a step, if it has one.
    pub fn navigate(&mut self, focus: SearchFocus, dir: NavDir)
        ensures
            focus == SearchFocus::Audio ==> *final(self) == (Search {
                audio_selected: spec_nav(old(self).audio_selected, dir),
                ..*old(self)
            }),
            focus == SearchFocus::Lyrics ==> *final(self) == (Search {
                lyrics_selected: spec_nav(old(self).lyrics_selected, dir),
                ..*old(self)
            }),
            focus == SearchFocus::Input ==> *final(self) == *old(self),
    {
        match focus {
            SearchFocus::Audio => {
                if let Some(i) = self.audio_selected {
                    self.audio_selected = Some(Self::step(i, dir));
                }
            },
            SearchFocus::Lyrics => {
                if let Some(i) = self.lyrics_selected {
                    self.lyrics_selected = Some(Self::step(i, dir));
                }
            },
            SearchFocus::Input => {},
        }
    }

    /// One index step that stays inside the index type.
    fn step(i: usize, dir: NavDir) -> (r: usize)
        ensures
            Some(r) == spec_nav(Some(i), dir),
    {
        match dir {
            NavDir::Up => if i == 0 {
                0
            } else {
                i - 1
            },
            NavDir::Down => if i == usize::MAX {
                usize::MAX
            } else {
                i + 1
            },
        }
    }

    /// Take in what the provider searches returned — nothing for a side
    /// whose fetch failed — then leave input mode, focus the audio list
    /// and give it a selection if it had none.
    pub fn finish_search(
        &mut self,
        state: &mut GlobalState,
        audio: Option<Vec<AudioResult>>,
        lyrics: Option<Vec<LyricsResult>>,
    )
        requires
            old(self).wf(),
            old(state).wf(),
        ensures
            final(self).wf(),
            final(state).wf(),
            *final(state) == (GlobalState { mode: InputMode::Nav, ..*old(state) }),
            match audio {
                Some(a) => final(self).audio_results == a,
                None => final(self).audio_results == old(self).audio_results,
            },
            match lyrics {
                Some(l) => final(self).lyric_results == l,
                None => final(self).lyric_results == old(self).lyric_results,
            },
            final(self).audio_selected == (if old(self).audio_selected is None {
                Some(0usize)
            } else {
                old(self).audio_selected
            }),
            final(self).focus == SearchFocus::Audio,
            final(self).lyrics_selected == old(self).lyrics_selected,
            final(self).song == old(self).song,
            final(self).query == old(self).query,
    {
        if let Some(a) = audio {
            self.audio_results = a;
        }
        if let Some(l) = lyrics {
            self.lyric_results = l;
        }
        state.mode = InputMode::Nav;
        self.focus = SearchFocus::Audio;
        if self.audio_selected.is_none() {
            self.audio_selected = Some(0);
        }
    }

    /// Route one key press within the search pane. The returned flag asks
    /// the caller to run the provider searches with the current query and
    /// hand the results to [`Search::finish_search`].
    ///
    /// The table, by pane focus:
    /// - any: `Tab` cycles input, audio list, lyric list, and falls
    ///   through unconsumed;
    /// - a result list: `/` returns to the input field in input mode;
    ///   `Esc` clears the pane; the arrow keys move the selection;
    ///   `Enter` on the audio list takes the selected audio pick and
    ///   moves on to the lyric list;
    /// - the lyric list: `Enter` takes the selected lyric pick, parses
    ///   its synced text (a failed parse leaves the song without a lyric
    ///   table), enqueues the composed song, leaves input mode, focuses
    ///   the queue — home instead when the queue was empty before — and
    ///   clears the pane;
    /// - the input field: a character is appended to the query,
    ///   `Backspace` deletes, `/` clears the query and opens input mode,
    ///   `Esc` clears a nonempty query and otherwise closes the pane
    ///   home, `Enter` submits the query.
    ///
    /// An `Enter` pick with no usable selection keeps the song as it was.
    #[verifier::rlimit(50)]
    pub fn event(&mut self, state: &mut GlobalState, key: Key) -> (r: (EventState, bool))
        requires
            old(self).wf(),
            old(state).wf(),
        ensures
            final(self).wf(),
            final(state).wf(),
            search_event_post(*old(self), *old(state), key, *final(self), *final(state), r),
    {
        if matches!(key, Key::Tab) {
            self.focus = match self.focus {
                SearchFocus::Input => SearchFocus::Audio,
                SearchFocus::Audio => SearchFocus::Lyrics,
                SearchFocus::Lyrics => SearchFocus::Input,
            };
            return (EventState::NotConsumed, false);
        }
        match self.focus {
            SearchFocus::Input => {
                match key {
                    Key::Char(c) => {
                        if c == '/' {
                            self.query = Vec::new();
                            state.mode = InputMode::Input;
                        } else {
                            self.query.push(c);
                        }
                        (EventState::Consumed, false)
                    },
                    Key::Esc => {
                        if self.query.is_empty() {
                            self.audio_selected = None;
                            self.lyrics_selected = None;
                            state.focus = Focus::Home;
                        } else {
                            self.query = Vec::new();
                        }
                        (EventState::Consumed, false)
                    },
                    Key::Backspace => {
                        let _ = self.query.pop();
                        proof {
                            if old(self).query@.len() == 0 {
                                assert(self.query@ =~= old(self).query@);
                            }
                        }
                        (EventState::Consumed, false)
                    },
                    Key::Enter => (EventState::Consumed, true),
                    _ => (EventState::NotConsumed, false),
                }
            },
            SearchFocus::Audio => {
                match key {
                    Key::Char(c) => {
                        if c == '/' {
                            state.mode = InputMode::Input;
                            self.focus = SearchFocus::Input;
                            (EventState::Consumed, false)
                        } else {
                            (EventState::NotConsumed, false)
                        }
                    },
                    Key::Esc => {
                        self.reset();
                        (EventState::Consumed, false)
                    },
                    Key::Up => {
                        self.navigate(SearchFocus::Audio, NavDir::Up);
                        (EventState::Consumed, false)
                    },
                    Key::Down => {
                        self.navigate(SearchFocus::Audio, NavDir::Down);
                        (EventState::Consumed, false)
                    },
                    Key::Enter => {
                        if let Some(i) = self.audio_selected {
                            if i < self.audio_results.len() {
                                self.song = self.song.with_ar(self.audio_results[i].clone());
                            }
                        }
                        self.focus = SearchFocus::Lyrics;
                        if self.lyrics_selected.is_none() {
                            self.lyrics_selected = Some(0);
                        }
                        (EventState::Consumed, false)
                    },
                    _ => (EventState::NotConsumed, false),
                }
            },
            SearchFocus::Lyrics => {
                match key {
                    Key::Char(c) => {
                        if c == '/' {
                            state.mode = InputMode::Input;
                            self.focus = SearchFocus::Input;
                            (EventState::Consumed, false)
                        } else {
                            (EventState::NotConsumed, false)
                        }
                    },
                    Key::Esc => {
                        self.reset();
                        (EventState::Consumed, false)
                    },
                    Key::Up => {
                        self.navigate(SearchFocus::Lyrics, NavDir::Up);
                        (EventState::Consumed, false)
                    },
                    Key::Down => {
                        self.navigate(SearchFocus::Lyrics, NavDir::Down);
                        (EventState::Consumed, false)
                    },
                    Key::Enter => {
                        let composed = if let Some(i) = self.lyrics_selected {
                            if i < self.lyric_results.len() {
                                let lr = self.lyric_results[i].clone();
                                let map = match parse(lr.synced_lyrics.as_str()) {
                                    Ok(m) => Some(m),
                                    Err(_) => None,
                                };
                                self.song.with_lr(lr, map)
                            } else {
                                self.song.clone()
                            }
                        } else {
                            self.song.clone()
                        };
                        state.enqueue(composed);
                        proof {
                            assert(state.song_list@.drop_last() =~= old(state).song_list@);
                        }
                        state.mode = InputMode::Nav;
                        if state.song_list.len() > 1 {
                            state.focus = Focus::Queue;
                        } else {
                            state.focus = Focus::Home;
                        }
                        self.reset();
                        (EventState::Consumed, false)
                    },
                    _ => (EventState::NotConsumed, false),
                }
            },
        }
    }
}

} // verus!
