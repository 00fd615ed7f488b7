use cliraoke::components::{get_list_items, ResettableComponent, StatefulList, Timer};
use cliraoke::events::EventState;
use cliraoke::providers::{AudioResult, LyricsResult};
use cliraoke::song::Song;
use cliraoke::state::{Focus, GlobalState, InputMode, SongState};

fn named_song(title: &str) -> Song {
    let mut s = Song::new();
    s.title = String::from(title);
    s.video_id = format!("vid-{}", title);
    s
}

#[test]
fn fresh_state_is_idle() {
    let s = GlobalState::new();
    assert!(s.current_song.is_none());
    assert_eq!(s.current_song_elapsed, 0);
    assert_eq!(s.session_time_elapsed, 0);
    assert!(s.song_list.is_empty());
    assert!(s.current_lyrics.is_empty());
    assert_eq!(s.focus, Focus::Home);
    assert_eq!(s.mode, InputMode::Nav);
    assert_eq!(s.song_state, SongState::Paused);
}

#[test]
fn has_next_song_needs_idle_and_queue() {
    let mut s = GlobalState::default();
    assert!(!s.has_next_song());
    s.enqueue(named_song("a"));
    assert!(s.has_next_song());
    s.current_song = Some(named_song("b"));
    assert!(!s.has_next_song());
}

#[test]
fn queue_is_first_in_first_out() {
    let mut s = GlobalState::default();
    s.enqueue(named_song("one"));
    s.enqueue(named_song("two"));
    s.enqueue(named_song("three"));
    assert_eq!(s.peek_front().unwrap().title, "one");
    assert_eq!(s.dequeue_front().unwrap().title, "one");
    assert_eq!(s.dequeue_front().unwrap().title, "two");
    assert_eq!(s.dequeue_front().unwrap().title, "three");
    assert!(s.dequeue_front().is_none());
    assert!(s.peek_front().is_none());
}

#[test]
fn song_composition_merges_both_sides() {
    let base = Song::new();
    let with_audio = base.with_ar(AudioResult {
        id: String::from("vid9"),
        title: String::from("ignored"),
        artist: String::from("ignored"),
        duration_ms: 180_000,
    });
    assert_eq!(with_audio.video_id, "vid9");
    assert_eq!(with_audio.duration_ms, 180_000);

    let lr = LyricsResult {
        id: String::from("lyr7"),
        title: String::from("Song Title"),
        artist: String::from("Artist"),
        synced_lyrics: String::from("[00:01.00] hi"),
        lyric_map: None,
    };
    let map = cliraoke::parse::parse("[00:01.00] hi").ok();
    let full = with_audio.with_lr(lr, map);
    assert_eq!(full.lyric_id, "lyr7");
    assert_eq!(full.video_id, "vid9");
    assert_eq!(full.title, "Song Title");
    assert_eq!(full.artist, "Artist");
    assert_eq!(full.duration_ms, 180_000);
    assert_eq!(full.lyric_map.unwrap().get(1000).unwrap(), "hi");
}

#[test]
fn timer_display_numbers() {
    assert_eq!(Timer::session_display(0), (0, 0));
    assert_eq!(Timer::session_display(75), (1, 15));
    assert_eq!(Timer::session_display(3600), (60, 0));
    assert_eq!(Timer::remaining_ms(180_000, 60_000), 120_000);
    assert_eq!(Timer::remaining_ms(180_000, 180_000), 0);
    assert_eq!(Timer::remaining_ms(100, 200), 0);
    assert_eq!(Timer::display_parts(62_030), (1, 2));
}

#[test]
fn stateful_list_wraps_both_ways() {
    let items = vec![
        String::from("x"),
        String::from("y"),
        String::from("z"),
    ];
    let mut l = StatefulList::with_items(items, None);
    l.next();
    assert_eq!(l.selected, Some(0));
    l.next();
    assert_eq!(l.selected, Some(1));
    l.next();
    assert_eq!(l.selected, Some(2));
    l.next();
    assert_eq!(l.selected, Some(0));
    l.previous();
    assert_eq!(l.selected, Some(2));
    l.previous();
    assert_eq!(l.selected, Some(1));
}

#[test]
fn stateful_list_first_and_reset() {
    let mut l = StatefulList::with_items(vec![String::from("x")], Some(5));
    l.first();
    assert_eq!(l.selected, Some(0));
    l.reset();
    assert!(l.selected.is_none());
    assert!(l.items.is_empty());
    let l2 = StatefulList::with_items(vec![String::from("a"), String::from("b")], None);
    assert_eq!(get_list_items(l2), vec![String::from("a"), String::from("b")]);
}

#[test]
fn event_state_consumption_flag() {
    assert!(EventState::Consumed.is_consumed());
    assert!(!EventState::NotConsumed.is_consumed());
}
