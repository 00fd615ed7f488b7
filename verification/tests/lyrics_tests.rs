use cliraoke::lyrics::LyricsMap;

fn demo_map() -> LyricsMap {
    let mut m = LyricsMap::new();
    m.insert(500, String::from("a"));
    m.insert(1500, String::from("b"));
    m.insert(3000, String::from("c"));
    m
}

#[test]
fn empty_map_has_no_entries() {
    let m = LyricsMap::new();
    assert_eq!(m.len(), 0);
    assert!(m.is_empty());
    assert!(m.get(0).is_none());
}

#[test]
fn insert_and_get_exact_timestamps() {
    let m = demo_map();
    assert_eq!(m.len(), 3);
    assert_eq!(m.get(500).unwrap(), "a");
    assert_eq!(m.get(1500).unwrap(), "b");
    assert_eq!(m.get(3000).unwrap(), "c");
    assert!(m.get(499).is_none());
    assert!(m.get(1501).is_none());
}

#[test]
fn insert_overwrites_same_timestamp() {
    let mut m = LyricsMap::new();
    m.insert(1000, String::from("first"));
    m.insert(1000, String::from("second"));
    assert_eq!(m.len(), 1);
    assert_eq!(m.get(1000).unwrap(), "second");
}

#[test]
fn insert_out_of_order_keeps_ascending_entries() {
    let mut m = LyricsMap::new();
    m.insert(3000, String::from("c"));
    m.insert(500, String::from("a"));
    m.insert(1500, String::from("b"));
    assert_eq!(m.len(), 3);
    assert_eq!(m.entry_at(0).0, 500);
    assert_eq!(m.entry_at(1).0, 1500);
    assert_eq!(m.entry_at(2).0, 3000);
}

#[test]
fn window_before_first_key() {
    let m = demo_map();
    let w = m.lookup_window(0);
    assert_eq!(w, vec![String::new(), String::new(), String::from("a")]);
}

#[test]
fn window_after_first_key() {
    let m = demo_map();
    let w = m.lookup_window(600);
    assert_eq!(w, vec![String::new(), String::from("a"), String::from("b")]);
}

#[test]
fn window_in_the_middle() {
    let m = demo_map();
    let w = m.lookup_window(1600);
    assert_eq!(
        w,
        vec![String::from("a"), String::from("b"), String::from("c")]
    );
}

#[test]
fn window_past_last_key() {
    let m = demo_map();
    let w = m.lookup_window(5000);
    assert_eq!(w, vec![String::from("b"), String::from("c"), String::new()]);
}

#[test]
fn window_at_exact_key_shows_it_as_current() {
    let m = demo_map();
    let w = m.lookup_window(1500);
    assert_eq!(
        w,
        vec![String::from("a"), String::from("b"), String::from("c")]
    );
}

#[test]
fn window_on_empty_map_is_blank() {
    let m = LyricsMap::new();
    assert_eq!(
        m.lookup_window(1234),
        vec![String::new(), String::new(), String::new()]
    );
}

#[test]
fn lookup_is_idempotent_and_does_not_mutate() {
    let m = demo_map();
    let w1 = m.lookup_window(1600);
    let w2 = m.lookup_window(1600);
    let w3 = m.lookup_window(1600);
    assert_eq!(w1, w2);
    assert_eq!(w2, w3);
    assert_eq!(m.len(), 3);
    assert_eq!(m.get(1500).unwrap(), "b");
}

#[test]
fn clone_preserves_entries() {
    let m = demo_map();
    let c = m.clone();
    assert_eq!(c.len(), 3);
    assert_eq!(c.get(3000).unwrap(), "c");
}
