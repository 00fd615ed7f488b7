use cliraoke::app::AppComponent;
use cliraoke::events::{EventState, Key};
use cliraoke::providers::{AudioResult, LyricsResult};
use cliraoke::search::SearchFocus;
use cliraoke::song::Song;
use cliraoke::state::{Focus, GlobalState, InputMode, SongState};

fn song_with_lyrics(title: &str) -> Song {
    let mut s = Song::new();
    s.title = String::from(title);
    s.video_id = format!("vid-{}", title);
    s.lyric_map = cliraoke::parse::parse("[00:00.50] a\n[00:01.50] b\n[00:03.00] c").ok();
    s
}

#[test]
fn one_tick_dequeues_into_playback() {
    let mut app = AppComponent::new();
    let mut state = GlobalState::default();
    state.enqueue(song_with_lyrics("first"));

    let started = app.tick(&mut state, 200);

    assert_eq!(started.unwrap(), "vid-first");
    assert_eq!(state.current_song.as_ref().unwrap().title, "first");
    assert!(state.song_list.is_empty());
    assert_eq!(state.current_song_elapsed, 0);
    assert_eq!(state.song_state, SongState::Playing);
    // The initial window is the one for time zero.
    assert_eq!(
        state.current_lyrics,
        vec![String::new(), String::new(), String::from("a")]
    );
}

#[test]
fn five_ticks_advance_the_session_by_one_second() {
    let mut app = AppComponent::new();
    let mut state = GlobalState::default();
    for _ in 0..5 {
        let started = app.tick(&mut state, 200);
        assert!(started.is_none());
    }
    assert_eq!(state.session_time_elapsed, 1);
    assert_eq!(app.tick_accumulator, 0);
}

#[test]
fn a_playing_song_advances_and_updates_the_window() {
    let mut app = AppComponent::new();
    let mut state = GlobalState::default();
    state.enqueue(song_with_lyrics("s"));
    app.tick(&mut state, 200);
    // 200, 400, 600 ms: past the first tag.
    app.tick(&mut state, 200);
    app.tick(&mut state, 200);
    app.tick(&mut state, 200);
    assert_eq!(state.current_song_elapsed, 600);
    assert_eq!(
        state.current_lyrics,
        vec![String::new(), String::from("a"), String::from("b")]
    );
}

#[test]
fn a_song_without_lyrics_plays_with_the_window_untouched() {
    let mut app = AppComponent::new();
    let mut state = GlobalState::default();
    state.current_lyrics = vec![String::from("left over")];
    let mut s = Song::new();
    s.video_id = String::from("vid-bare");
    state.enqueue(s);
    let started = app.tick(&mut state, 200);
    assert_eq!(started.unwrap(), "vid-bare");
    assert_eq!(state.song_state, SongState::Playing);
    assert_eq!(state.current_lyrics, vec![String::from("left over")]);
    app.tick(&mut state, 200);
    assert_eq!(state.current_song_elapsed, 200);
    assert_eq!(state.current_lyrics, vec![String::from("left over")]);
}

#[test]
fn a_paused_song_does_not_advance() {
    let mut app = AppComponent::new();
    let mut state = GlobalState::default();
    state.enqueue(song_with_lyrics("s"));
    app.tick(&mut state, 200);
    state.song_state = SongState::Paused;
    app.tick(&mut state, 200);
    app.tick(&mut state, 200);
    assert_eq!(state.current_song_elapsed, 0);
}

#[test]
fn idle_tick_only_keeps_the_clock() {
    let mut app = AppComponent::new();
    let mut state = GlobalState::default();
    let started = app.tick(&mut state, 700);
    assert!(started.is_none());
    assert!(state.current_song.is_none());
    assert_eq!(app.tick_accumulator, 700);
    app.tick(&mut state, 700);
    assert_eq!(state.session_time_elapsed, 1);
    assert_eq!(app.tick_accumulator, 400);
}

#[test]
fn global_bindings_route_focus() {
    let mut app = AppComponent::new();
    let mut state = GlobalState::default();

    let (r, _) = app.event(&mut state, Key::Char('h'));
    assert_eq!(state.focus, Focus::Help);
    assert!(!r.is_consumed());

    app.event(&mut state, Key::Esc);
    assert_eq!(state.focus, Focus::Home);

    app.event(&mut state, Key::Char('u'));
    assert_eq!(state.focus, Focus::Queue);

    // From the queue, '/' jumps straight into search input.
    let (r, _) = app.event(&mut state, Key::Char('/'));
    assert_eq!(state.focus, Focus::Search);
    assert_eq!(state.mode, InputMode::Input);
    assert!(r.is_consumed());
}

#[test]
fn space_toggles_play_and_pause() {
    let mut app = AppComponent::new();
    let mut state = GlobalState::default();
    assert_eq!(state.song_state, SongState::Paused);
    app.event(&mut state, Key::Char(' '));
    assert_eq!(state.song_state, SongState::Playing);
    app.event(&mut state, Key::Char(' '));
    assert_eq!(state.song_state, SongState::Paused);
}

#[test]
fn queue_pane_returns_home_on_context_keys() {
    let mut app = AppComponent::new();
    let mut state = GlobalState::default();
    app.event(&mut state, Key::Char('u'));
    assert_eq!(state.focus, Focus::Queue);
    app.event(&mut state, Key::Char('u'));
    assert_eq!(state.focus, Focus::Home);
    app.event(&mut state, Key::Char('u'));
    app.event(&mut state, Key::Esc);
    assert_eq!(state.focus, Focus::Home);
}

#[test]
fn help_pane_closes_on_its_own_key() {
    let mut app = AppComponent::new();
    let mut state = GlobalState::default();
    app.event(&mut state, Key::Char('h'));
    assert_eq!(state.focus, Focus::Help);
    app.event(&mut state, Key::Char('h'));
    assert_eq!(state.focus, Focus::Home);
}

#[test]
fn typing_a_query_and_submitting_requests_a_search() {
    let mut app = AppComponent::new();
    let mut state = GlobalState::default();
    app.event(&mut state, Key::Char('/'));
    assert_eq!(state.focus, Focus::Search);
    assert_eq!(state.mode, InputMode::Input);

    for c in ['a', 'b', 'c'] {
        let (r, run) = app.event(&mut state, Key::Char(c));
        assert!(r.is_consumed());
        assert!(!run);
    }
    assert_eq!(app.search.query(), &vec!['a', 'b', 'c']);

    app.event(&mut state, Key::Backspace);
    assert_eq!(app.search.query(), &vec!['a', 'b']);

    let (r, run) = app.event(&mut state, Key::Enter);
    assert!(r.is_consumed());
    assert!(run);
    assert_eq!(app.search.query(), &vec!['a', 'b']);
}

#[test]
fn search_characters_shadow_the_global_shortcuts() {
    let mut app = AppComponent::new();
    let mut state = GlobalState::default();
    app.event(&mut state, Key::Char('/'));
    // 'h' and 'u' feed the query instead of switching panes.
    app.event(&mut state, Key::Char('h'));
    app.event(&mut state, Key::Char('u'));
    assert_eq!(state.focus, Focus::Search);
    assert_eq!(app.search.query(), &vec!['h', 'u']);
}

#[test]
fn escape_clears_then_closes_the_search() {
    let mut app = AppComponent::new();
    let mut state = GlobalState::default();
    app.event(&mut state, Key::Char('/'));
    app.event(&mut state, Key::Char('q'));
    let (r, _) = app.event(&mut state, Key::Esc);
    assert!(r.is_consumed());
    assert_eq!(state.focus, Focus::Search);
    assert!(app.search.query().is_empty());
    app.event(&mut state, Key::Esc);
    assert_eq!(state.focus, Focus::Home);
}

fn demo_results() -> (Vec<AudioResult>, Vec<LyricsResult>) {
    let audio = vec![AudioResult {
        id: String::from("vidX"),
        title: String::from("Video X"),
        artist: String::from("Channel X"),
        duration_ms: 200_000,
    }];
    let lyrics = vec![LyricsResult {
        id: String::from("lyrX"),
        title: String::from("Track X"),
        artist: String::from("Artist X"),
        synced_lyrics: String::from("[00:01.00] line one\n[00:02.00] line two"),
        lyric_map: None,
    }];
    (audio, lyrics)
}

#[test]
fn full_search_flow_composes_and_enqueues_a_song() {
    let mut app = AppComponent::new();
    let mut state = GlobalState::default();
    app.event(&mut state, Key::Char('/'));
    for c in ['a', 'b'] {
        app.event(&mut state, Key::Char(c));
    }
    let (_, run) = app.event(&mut state, Key::Enter);
    assert!(run);

    // The caller runs both searches and reports back.
    let (audio, lyrics) = demo_results();
    app.search
        .finish_search(&mut state, Some(audio), Some(lyrics));
    assert_eq!(state.mode, InputMode::Nav);
    assert_eq!(app.search.focus, SearchFocus::Audio);
    assert_eq!(app.search.audio_selected, Some(0));

    // Pick the audio result, then the lyric result.
    app.event(&mut state, Key::Enter);
    assert_eq!(app.search.focus, SearchFocus::Lyrics);
    assert_eq!(app.search.lyrics_selected, Some(0));
    app.event(&mut state, Key::Enter);

    // The composed song sits in the queue; the first song goes home.
    assert_eq!(state.focus, Focus::Home);
    assert_eq!(state.mode, InputMode::Nav);
    assert_eq!(state.song_list.len(), 1);
    let song = &state.song_list[0];
    assert_eq!(song.video_id, "vidX");
    assert_eq!(song.lyric_id, "lyrX");
    assert_eq!(song.title, "Track X");
    assert_eq!(song.duration_ms, 200_000);
    let map = song.lyric_map.as_ref().unwrap();
    assert_eq!(map.get(1000).unwrap(), "line one");
    assert_eq!(map.get(2000).unwrap(), "line two");

    // The pane is clean again.
    assert!(app.search.query().is_empty());
    assert_eq!(app.search.focus, SearchFocus::Input);

    // A second composed song turns focus to the queue instead.
    app.event(&mut state, Key::Char('/'));
    app.event(&mut state, Key::Char('x'));
    app.event(&mut state, Key::Enter);
    let (audio, lyrics) = demo_results();
    app.search
        .finish_search(&mut state, Some(audio), Some(lyrics));
    app.event(&mut state, Key::Enter);
    app.event(&mut state, Key::Enter);
    assert_eq!(state.song_list.len(), 2);
    assert_eq!(state.focus, Focus::Queue);
}

#[test]
fn selection_moves_within_the_audio_list() {
    let mut app = AppComponent::new();
    let mut state = GlobalState::default();
    app.event(&mut state, Key::Char('/'));
    app.event(&mut state, Key::Enter);
    let (audio, lyrics) = demo_results();
    app.search
        .finish_search(&mut state, Some(audio), Some(lyrics));
    assert_eq!(app.search.audio_selected, Some(0));
    app.event(&mut state, Key::Down);
    assert_eq!(app.search.audio_selected, Some(1));
    app.event(&mut state, Key::Up);
    app.event(&mut state, Key::Up);
    assert_eq!(app.search.audio_selected, Some(0));
}

#[test]
fn escape_from_a_result_list_clears_the_pane() {
    let mut app = AppComponent::new();
    let mut state = GlobalState::default();
    app.event(&mut state, Key::Char('/'));
    app.event(&mut state, Key::Char('z'));
    app.event(&mut state, Key::Enter);
    let (audio, lyrics) = demo_results();
    app.search
        .finish_search(&mut state, Some(audio), Some(lyrics));
    let (r, _) = app.event(&mut state, Key::Esc);
    assert!(r.is_consumed());
    assert!(app.search.audio_results.is_empty());
    assert!(app.search.lyric_results.is_empty());
    assert!(app.search.query().is_empty());
    assert_eq!(app.search.focus, SearchFocus::Input);
}

#[test]
fn tab_cycles_the_pane_focus_without_consuming() {
    let mut app = AppComponent::new();
    let mut state = GlobalState::default();
    app.event(&mut state, Key::Char('/'));
    assert_eq!(app.search.focus, SearchFocus::Input);
    let (r, _) = app.event(&mut state, Key::Tab);
    assert_eq!(r, EventState::NotConsumed);
    assert_eq!(app.search.focus, SearchFocus::Audio);
    app.event(&mut state, Key::Tab);
    assert_eq!(app.search.focus, SearchFocus::Lyrics);
    app.event(&mut state, Key::Tab);
    assert_eq!(app.search.focus, SearchFocus::Input);
}

#[test]
fn failed_lyric_parse_still_enqueues_the_song() {
    let mut app = AppComponent::new();
    let mut state = GlobalState::default();
    app.event(&mut state, Key::Char('/'));
    app.event(&mut state, Key::Enter);
    let audio = vec![AudioResult {
        id: String::from("vidY"),
        title: String::from("Video Y"),
        artist: String::from("Channel Y"),
        duration_ms: 0,
    }];
    let lyrics = vec![LyricsResult {
        id: String::from("lyrY"),
        title: String::from("Track Y"),
        artist: String::from("Artist Y"),
        synced_lyrics: String::from("[99999999999999999999:00.00] corrupt"),
        lyric_map: None,
    }];
    app.search
        .finish_search(&mut state, Some(audio), Some(lyrics));
    app.event(&mut state, Key::Enter);
    app.event(&mut state, Key::Enter);
    assert_eq!(state.song_list.len(), 1);
    assert!(state.song_list[0].lyric_map.is_none());
    assert_eq!(state.song_list[0].lyric_id, "lyrY");
}

#[test]
fn composed_song_plays_on_the_next_tick() {
    let mut app = AppComponent::new();
    let mut state = GlobalState::default();
    app.event(&mut state, Key::Char('/'));
    app.event(&mut state, Key::Char('a'));
    app.event(&mut state, Key::Enter);
    let (audio, lyrics) = demo_results();
    app.search
        .finish_search(&mut state, Some(audio), Some(lyrics));
    app.event(&mut state, Key::Enter);
    app.event(&mut state, Key::Enter);

    let started = app.tick(&mut state, 200);
    assert_eq!(started.unwrap(), "vidX");
    assert_eq!(state.current_song.as_ref().unwrap().title, "Track X");
    assert_eq!(state.song_state, SongState::Playing);
    // At time zero both tagged lines still lie ahead.
    assert_eq!(
        state.current_lyrics,
        vec![String::new(), String::new(), String::from("line one")]
    );
}
