use cliraoke::parse::{parse, parse_line};
use cliraoke::providers::LRCLib;

#[test]
fn round_trip_single_line() {
    let m = parse("[00:01.50] Hello").unwrap();
    assert_eq!(m.len(), 1);
    assert_eq!(m.get(1500).unwrap(), "Hello");
}

#[test]
fn minutes_seconds_fraction_arithmetic() {
    // 1 minute, 2 seconds, 3 centiseconds.
    let m = parse("[01:02.03] x").unwrap();
    assert_eq!(m.get(62030).unwrap(), "x");
}

#[test]
fn fraction_is_read_as_centiseconds() {
    // Three fraction digits are still centiseconds times ten.
    let m = parse("[00:00.123] y").unwrap();
    assert_eq!(m.get(1230).unwrap(), "y");
}

#[test]
fn skip_malformed_line_keeps_the_rest() {
    let m = parse("not a lyric line\n[00:02.00] ok").unwrap();
    assert_eq!(m.len(), 1);
    assert_eq!(m.get(2000).unwrap(), "ok");
}

#[test]
fn fail_fast_on_numbers_too_large() {
    // The tag shape matches, the minute run does not fit a timestamp.
    let r = parse("[99999999999999999999:00.00] x");
    assert!(r.is_err());
}

#[test]
fn fail_fast_even_with_good_lines_around() {
    let r = parse("[00:01.00] fine\n[99999999999999999999:00.00] bad\n[00:02.00] fine");
    assert!(r.is_err());
}

#[test]
fn overflow_in_the_product_also_fails() {
    // Minutes fit a 64-bit number, the millisecond total does not.
    let r = parse("[18446744073709551615:00.00] x");
    assert!(r.is_err());
}

#[test]
fn empty_input_gives_empty_map() {
    let m = parse("").unwrap();
    assert!(m.is_empty());
}

#[test]
fn input_without_tags_gives_empty_map() {
    let m = parse("la la la\nno tags here\n").unwrap();
    assert!(m.is_empty());
}

#[test]
fn several_lines_in_order() {
    let raw = "[00:00.50] a\n[00:01.50] b\n[00:03.00] c";
    let m = parse(raw).unwrap();
    assert_eq!(m.len(), 3);
    assert_eq!(m.get(500).unwrap(), "a");
    assert_eq!(m.get(1500).unwrap(), "b");
    assert_eq!(m.get(3000).unwrap(), "c");
}

#[test]
fn later_duplicate_timestamp_overwrites() {
    let m = parse("[00:01.00] first\n[00:01.00] second").unwrap();
    assert_eq!(m.len(), 1);
    assert_eq!(m.get(1000).unwrap(), "second");
}

#[test]
fn carriage_returns_are_stripped_before_newlines() {
    let m = parse("[00:01.00] one\r\n[00:02.00] two\r\n").unwrap();
    assert_eq!(m.get(1000).unwrap(), "one");
    assert_eq!(m.get(2000).unwrap(), "two");
}

#[test]
fn whitespace_after_tag_is_not_part_of_the_text() {
    let m = parse("[00:01.00]   spaced out").unwrap();
    assert_eq!(m.get(1000).unwrap(), "spaced out");
}

#[test]
fn text_may_be_empty() {
    let m = parse("[00:01.00]").unwrap();
    assert_eq!(m.get(1000).unwrap(), "");
}

#[test]
fn tag_needs_all_three_fields() {
    assert!(parse("[00:01] no fraction").unwrap().is_empty());
    assert!(parse("[0001.00] no colon").unwrap().is_empty());
    assert!(parse("[00:.00] empty seconds").unwrap().is_empty());
    assert!(parse("00:01.00] no opening bracket").unwrap().is_empty());
    assert!(parse("[00:01.00 no closing bracket").unwrap().is_empty());
}

#[test]
fn parse_line_reports_each_case() {
    assert_eq!(parse_line("no tag").unwrap(), None);
    let (ts, text) = parse_line("[00:02.00] ok").unwrap().unwrap();
    assert_eq!(ts, 2000);
    assert_eq!(text, "ok");
    assert!(parse_line("[99999999999999999999:00.00] x").is_err());
}

#[test]
fn provider_parse_wraps_the_map() {
    let lrc = LRCLib::new();
    let m = lrc
        .parse(String::from("[00:01.50] Hello"))
        .unwrap()
        .unwrap();
    assert_eq!(m.get(1500).unwrap(), "Hello");
    assert!(lrc
        .parse(String::from("[99999999999999999999:00.00] x"))
        .is_err());
}

#[test]
fn bucketed_parse_rounds_down_to_the_grid() {
    let m = cliraoke::parse::parse_with_bucket("[00:01.50] Hello", 200).unwrap();
    assert!(m.get(1500).is_none());
    assert_eq!(m.get(1400).unwrap(), "Hello");
}

#[test]
fn bucketed_parse_lets_near_lines_collide() {
    let m = cliraoke::parse::parse_with_bucket("[00:01.41] one\n[00:01.49] two", 200).unwrap();
    assert_eq!(m.len(), 1);
    assert_eq!(m.get(1400).unwrap(), "two");
}

#[test]
fn one_millisecond_grid_changes_nothing() {
    let m = cliraoke::parse::parse_with_bucket("[00:01.50] Hello", 1).unwrap();
    assert_eq!(m.get(1500).unwrap(), "Hello");
}

#[test]
fn tag_must_open_the_line() {
    assert!(parse(" [00:01.00] x").unwrap().is_empty());
    assert!(parse("x [00:01.00] y").unwrap().is_empty());
}

#[test]
fn text_may_contain_brackets() {
    let m = parse("[00:01.00] [chorus] la").unwrap();
    assert_eq!(m.get(1000).unwrap(), "[chorus] la");
}
