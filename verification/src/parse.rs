//! Parsing of time-tagged lyric text into a [`LyricsMap`](crate::lyrics::LyricsMap).
//!
//! Each text line may start with a tag `[M:S.F]` — minutes, seconds and a
//! fraction given in centiseconds, each a nonempty digit run — followed by
//! optional whitespace and the lyric text. A line without such a tag is
//! skipped. A tagged line whose numbers do not fit the timestamp type
//! fails the whole parse: numeric corruption is reported, not dropped.

use crate::lyrics::LyricsMap;
use vstd::prelude::*;
use vstd::string::StrSliceExecFns;

verus! {

/// A tagged lyric line carried a number too large for a timestamp.
#[derive(Clone, Copy, Debug, PartialEq, Eq, Structural)]
pub struct ParseError;

/// An ASCII decimal digit.
pub open spec fn is_digit(c: char) -> bool {
    48 <= c as u32 <= 57
}

/// The numeric value of one digit.
pub open spec fn digit_val(c: char) -> int {
    c as u32 - 48
}

/// Whitespace accepted between the time tag and the lyric text: the
/// ASCII blank characters that can stand inside a line.
pub open spec fn is_space(c: char) -> bool {
    c == ' ' || c == '\t' || c == '\r' || c as u32 == 11 || c as u32 == 12
}

/// Length of the digit run starting at position `p`.
pub open spec fn digit_run_from(l: Seq<char>, p: int) -> int
    decreases l.len() - p
        when p <= l.len()
{
    if p < 0 || p >= l.len() || !is_digit(l[p]) {
        0
    } else {
        1 + digit_run_from(l, p + 1)
    }
}

/// Length of the whitespace run starting at position `p`.
pub open spec fn space_run_from(l: Seq<char>, p: int) -> int
    decreases l.len() - p
        when p <= l.len()
{
    if p < 0 || p >= l.len() || !is_space(l[p]) {
        0
    } else {
        1 + space_run_from(l, p + 1)
    }
}

/// The decimal value of the digits at positions `a..b`.
pub open spec fn digits_val_range(l: Seq<char>, a: int, b: int) -> int
    decreases b - a,
{
    if a >= b {
        0
    } else {
        digits_val_range(l, a, b - 1) * 10 + digit_val(l[b - 1])
    }
}

/// Position one past the minute digits (the tag opens at position 0).
pub open spec fn minutes_end(l: Seq<char>) -> int {
    1 + digit_run_from(l, 1)
}

/// Position one past the second digits.
pub open spec fn seconds_end(l: Seq<char>) -> int {
    minutes_end(l) + 1 + digit_run_from(l, minutes_end(l) + 1)
}

/// Position one past the fraction digits.
pub open spec fn fraction_end(l: Seq<char>) -> int {
    seconds_end(l) + 1 + digit_run_from(l, seconds_end(l) + 1)
}

/// Position of the lyric text, after the tag and any whitespace.
pub open spec fn text_start(l: Seq<char>) -> int {
    fraction_end(l) + 1 + space_run_from(l, fraction_end(l) + 1)
}

/// Whether a line starts with a well-formed time tag: `[` digits `:`
/// digits `.` digits `]`, each run nonempty.
pub open spec fn line_matches(l: Seq<char>) -> bool {
    &&& l.len() >= 1 && l[0] == '['
    &&& minutes_end(l) > 1
    &&& minutes_end(l) < l.len() && l[minutes_end(l)] == ':'
    &&& seconds_end(l) > minutes_end(l) + 1
    &&& seconds_end(l) < l.len() && l[seconds_end(l)] == '.'
    &&& fraction_end(l) > seconds_end(l) + 1
    &&& fraction_end(l) < l.len() && l[fraction_end(l)] == ']'
}

/// The tag's timestamp in milliseconds: minutes, seconds, and the
/// fraction field read as centiseconds.
pub open spec fn line_stamp(l: Seq<char>) -> int {
    digits_val_range(l, 1, minutes_end(l)) * 60000 + digits_val_range(
        l,
        minutes_end(l) + 1,
        seconds_end(l),
    ) * 1000 + digits_val_range(l, seconds_end(l) + 1, fraction_end(l)) * 10
}

/// The lyric text of a tagged line.
pub open spec fn line_text(l: Seq<char>) -> Seq<char> {
    l.subrange(text_start(l), l.len() as int)
}

/// A line is acceptable when it either has no tag or its timestamp fits.
pub open spec fn line_ok(l: Seq<char>) -> bool {
    line_matches(l) ==> line_stamp(l) <= u64::MAX
}

/// The position of the first newline at or after `p`, or the text's length.
pub open spec fn newline_from(s: Seq<char>, p: int) -> int
    decreases s.len() - p
        when p <= s.len()
{
    if p < 0 || p >= s.len() {
        s.len() as int
    } else if s[p] == '\n' {
        p
    } else {
        newline_from(s, p + 1)
    }
}

/// The text split into lines from position `p` on: segments end at a
/// newline, which is dropped together with a carriage return just before
/// it; a final segment without a newline is kept as it stands.
pub open spec fn spec_lines_from(s: Seq<char>, p: int) -> Seq<Seq<char>>
    decreases s.len() - p
        when p <= s.len()
{
    if p < 0 || p >= s.len() {
        Seq::empty()
    } else {
        let j = newline_from(s, p);
        if j >= s.len() {
            seq![s.subrange(p, s.len() as int)]
        } else if j < p {
            Seq::empty()
        } else {
            let e = if j > p && s[j - 1] == '\r' {
                j - 1
            } else {
                j
            };
            seq![s.subrange(p, e)] + spec_lines_from(s, j + 1)
        }
    }
}

/// The text split into lines.
pub open spec fn spec_lines(s: Seq<char>) -> Seq<Seq<char>> {
    spec_lines_from(s, 0)
}

/// One line's effect on the timestamp map: a tagged line with a fitting
/// timestamp is inserted, overwriting an entry already at that time;
/// any other line leaves the map unchanged.
pub open spec fn apply_line(m: Map<u64, Seq<char>>, l: Seq<char>) -> Map<u64, Seq<char>> {
    if line_matches(l) && line_stamp(l) <= u64::MAX {
        m.insert(line_stamp(l) as u64, line_text(l))
    } else {
        m
    }
}

/// The lines applied in order, starting from map `m`.
pub open spec fn spec_parse_from(m: Map<u64, Seq<char>>, lines: Seq<Seq<char>>) -> Map<
    u64,
    Seq<char>,
>
    decreases lines.len(),
{
    if lines.len() == 0 {
        m
    } else {
        spec_parse_from(apply_line(m, lines[0]), lines.drop_first())
    }
}

/// The timestamp map described by a sequence of lines.
pub open spec fn spec_parse(lines: Seq<Seq<char>>) -> Map<u64, Seq<char>> {
    spec_parse_from(Map::empty(), lines)
}

/// Every line's timestamp, where there is one, fits.
pub open spec fn all_lines_ok(lines: Seq<Seq<char>>) -> bool {
    forall|i: int| 0 <= i < lines.len() ==> line_ok(#[trigger] lines[i])
}

/// Whether one character is an ASCII decimal digit.
fn is_digit_char(c: char) -> (b: bool)
    ensures
        b == is_digit(c),
{
    let u = c as u32;
    48 <= u && u <= 57
}

/// Whether one character is tag-trailing whitespace.
fn is_space_char(c: char) -> (b: bool)
    ensures
        b == is_space(c),
{
    let u = c as u32;
    u == 32 || u == 9 || u == 13 || u == 11 || u == 12
}

/// Scan past the digit run starting at `from`.
fn scan_digits(s: &str, from: usize, n: usize) -> (e: usize)
    requires
        n == s@.len(),
        from <= n,
    ensures
        e == from + digit_run_from(s@, from as int),
        from <= e <= n,
{
    let mut e = from;
    while e < n && is_digit_char(s.get_char(e))
        invariant
            n == s@.len(),
            from <= e <= n,
            digit_run_from(s@, from as int) == (e - from) + digit_run_from(s@, e as int),
        decreases n - e,
    {
        e += 1;
    }
    e
}

/// Scan past the whitespace run starting at `from`.
fn scan_spaces(s: &str, from: usize, n: usize) -> (e: usize)
    requires
        n == s@.len(),
        from <= n,
    ensures
        e == from + space_run_from(s@, from as int),
        from <= e <= n,
{
    let mut e = from;
    while e < n && is_space_char(s.get_char(e))
        invariant
            n == s@.len(),
            from <= e <= n,
            space_run_from(s@, from as int) == (e - from) + space_run_from(s@, e as int),
        decreases n - e,
    {
        e += 1;
    }
    e
}

/// Scan to the first newline at or after `from`.
fn scan_to_newline(s: &str, from: usize, n: usize) -> (e: usize)
    requires
        n == s@.len(),
        from <= n,
    ensures
        e == newline_from(s@, from as int),
        from <= e <= n,
        e < n ==> s@[e as int] == '\n',
{
    let mut e = from;
    while e < n && s.get_char(e) != '\n'
        invariant
            n == s@.len(),
            from <= e <= n,
            newline_from(s@, from as int) == newline_from(s@, e as int),
        decreases n - e,
    {
        e += 1;
    }
    e
}

/// Every character of a digit run is a digit.
proof fn lemma_digit_run_digits(l: Seq<char>, p: int)
    requires
        0 <= p <= l.len(),
    ensures
        forall|q: int| p <= q < p + digit_run_from(l, p) ==> is_digit(#[trigger] l[q]),
        p + digit_run_from(l, p) <= l.len(),
    decreases l.len() - p,
{
    if p < l.len() && is_digit(l[p]) {
        lemma_digit_run_digits(l, p + 1);
    }
}

/// The value of a digit run is never negative.
proof fn lemma_digits_val_nonneg(l: Seq<char>, a: int, b: int)
    requires
        forall|j: int| a <= j < b ==> is_digit(#[trigger] l[j]),
    ensures
        digits_val_range(l, a, b) >= 0,
    decreases b - a,
{
    if a < b {
        lemma_digits_val_nonneg(l, a, b - 1);
    }
}

/// Reading more digits never shrinks the value.
proof fn lemma_digits_val_mono(l: Seq<char>, a: int, b: int, c: int)
    requires
        a <= b <= c,
        forall|j: int| a <= j < c ==> is_digit(#[trigger] l[j]),
    ensures
        digits_val_range(l, a, b) <= digits_val_range(l, a, c),
    decreases c - b,
{
    if b < c {
        lemma_digits_val_mono(l, a, b, c - 1);
        lemma_digits_val_nonneg(l, a, c - 1);
    }
}

/// The value of the digits at `from..to`, or nothing if it exceeds the
/// timestamp type.
fn digits_value(s: &str, from: usize, to: usize, n: usize) -> (r: Option<u64>)
    requires
        n == s@.len(),
        from <= to <= n,
        forall|j: int| from <= j < to ==> is_digit(#[trigger] s@[j]),
    ensures
        match r {
            Some(v) => v == digits_val_range(s@, from as int, to as int),
            None => digits_val_range(s@, from as int, to as int) > u64::MAX,
        },
{
    let mut v: u64 = 0;
    let mut i = from;
    while i < to
        invariant
            n == s@.len(),
            from <= i <= to <= n,
            forall|j: int| from <= j < to ==> is_digit(#[trigger] s@[j]),
            v == digits_val_range(s@, from as int, i as int),
        decreases to - i,
    {
        let c = s.get_char(i);
        let u = c as u32;
        proof {
            assert(is_digit(s@[i as int]));
        }
        let d = (u - 48) as u64;
        let v10 = match v.checked_mul(10) {
            Some(x) => x,
            None => {
                proof {
                    lemma_digits_val_nonneg(s@, from as int, i as int);
                    assert(digits_val_range(s@, from as int, i + 1) > u64::MAX);
                    lemma_digits_val_mono(s@, from as int, i + 1, to as int);
                }
                return None;
            },
        };
        v = match v10.checked_add(d) {
            Some(x) => x,
            None => {
                proof {
                    assert(digits_val_range(s@, from as int, i + 1) > u64::MAX);
                    lemma_digits_val_mono(s@, from as int, i + 1, to as int);
                }
                return None;
            },
        };
        i += 1;
    }
    Some(v)
}

/// Parse one line. A line without a time tag is no entry and no error; a
/// tagged line yields its timestamp and text, unless a number in the tag
/// does not fit, which is the one parse failure.
pub fn parse_line(line: &str) -> (r: Result<Option<(u64, String)>, ParseError>)
    ensures
        !line_matches(line@) ==> r == Ok::<Option<(u64, String)>, ParseError>(None),
        line_matches(line@) && line_stamp(line@) <= u64::MAX ==> (r matches Ok(o) && o matches Some(
            e,
        ) && e.0 == line_stamp(line@) && e.1@ == line_text(line@)),
        line_matches(line@) && line_stamp(line@) > u64::MAX ==> r is Err,
{
    let n = line.unicode_len();
    if n == 0 || line.get_char(0) != '[' {
        return Ok(None);
    }
    let m_end = scan_digits(line, 1, n);
    if m_end == 1 || m_end >= n || line.get_char(m_end) != ':' {
        return Ok(None);
    }
    let s_end = scan_digits(line, m_end + 1, n);
    if s_end == m_end + 1 || s_end >= n || line.get_char(s_end) != '.' {
        return Ok(None);
    }
    let f_end = scan_digits(line, s_end + 1, n);
    if f_end == s_end + 1 || f_end >= n || line.get_char(f_end) != ']' {
        return Ok(None);
    }
    proof {
        assert(line_matches(line@));
        lemma_digit_run_digits(line@, 1);
        lemma_digit_run_digits(line@, m_end + 1);
        lemma_digit_run_digits(line@, s_end + 1);
        lemma_digits_val_nonneg(line@, 1, m_end as int);
        lemma_digits_val_nonneg(line@, m_end + 1, s_end as int);
        lemma_digits_val_nonneg(line@, s_end + 1, f_end as int);
    }
    let minutes = match digits_value(line, 1, m_end, n) {
        Some(v) => v,
        None => {
            return Err(ParseError);
        },
    };
    let seconds = match digits_value(line, m_end + 1, s_end, n) {
        Some(v) => v,
        None => {
            return Err(ParseError);
        },
    };
    let fraction = match digits_value(line, s_end + 1, f_end, n) {
        Some(v) => v,
        None => {
            return Err(ParseError);
        },
    };
    let part_m = match minutes.checked_mul(60000) {
        Some(x) => x,
        None => {
            return Err(ParseError);
        },
    };
    let part_s = match seconds.checked_mul(1000) {
        Some(x) => x,
        None => {
            return Err(ParseError);
        },
    };
    let part_f = match fraction.checked_mul(10) {
        Some(x) => x,
        None => {
            return Err(ParseError);
        },
    };
    let stamp = match part_m.checked_add(part_s) {
        Some(x) => x,
        None => {
            return Err(ParseError);
        },
    };
    let stamp = match stamp.checked_add(part_f) {
        Some(x) => x,
        None => {
            return Err(ParseError);
        },
    };
    let t_start = scan_spaces(line, f_end + 1, n);
    let text = line.substring_char(t_start, n).to_owned();
    proof {
        assert(text@ == line_text(line@));
    }
    Ok(Some((stamp, text)))
}

/// Text without a newline from `p` on scans to its end.
proof fn lemma_newline_none(s: Seq<char>, p: int)
    requires
        0 <= p <= s.len(),
        forall|i: int| p <= i < s.len() ==> s[i] != '\n',
    ensures
        newline_from(s, p) == s.len(),
    decreases s.len() - p,
{
    if p < s.len() {
        lemma_newline_none(s, p + 1);
    }
}

/// Parse raw synced-lyric text into a timestamp map. Lines without a
/// time tag are skipped; a tagged line is inserted at its timestamp,
/// a later line overwriting an earlier one at the same time; a tagged
/// line whose numbers do not fit fails the whole parse. An input with
/// no tagged line gives an empty map, which is no error.
pub fn parse(raw: &str) -> (r: Result<LyricsMap, ParseError>)
    ensures
        r matches Ok(tm) ==> tm.wf() && tm.to_map() == spec_parse(spec_lines(raw@))
            && all_lines_ok(spec_lines(raw@)),
        r is Err ==> !all_lines_ok(spec_lines(raw@)),
{
    let n = raw.unicode_len();
    let mut tm = LyricsMap::new();
    let mut p: usize = 0;
    while p < n
        invariant
            n == raw@.len(),
            0 <= p <= n,
            tm.wf(),
            spec_parse_from(tm.to_map(), spec_lines_from(raw@, p as int)) == spec_parse(
                spec_lines(raw@),
            ),
            all_lines_ok(spec_lines(raw@)) <==> all_lines_ok(spec_lines_from(raw@, p as int)),
        decreases n - p,
    {
        let ghost rest = spec_lines_from(raw@, p as int);
        let j = scan_to_newline(raw, p, n);
        let e = if j < n && j > p && raw.get_char(j - 1) == '\r' {
            j - 1
        } else {
            j
        };
        let seg = raw.substring_char(p, e);
        let ghost rest_after: Seq<Seq<char>> = if j < n {
            spec_lines_from(raw@, j + 1)
        } else {
            Seq::empty()
        };
        proof {
            if j < n {
                assert(rest =~= seq![seg@] + rest_after);
            } else {
                assert(seg@ =~= raw@.subrange(p as int, n as int));
                assert(rest =~= seq![seg@]);
                assert(rest =~= seq![seg@] + rest_after);
            }
            assert(rest[0] == seg@);
            assert(rest.drop_first() =~= rest_after);
        }
        match parse_line(seg) {
            Ok(Some((ts, text))) => {
                proof {
                    assert(apply_line(tm.to_map(), seg@) == tm.to_map().insert(ts, text@));
                }
                tm.insert(ts, text);
            },
            Ok(None) => {
                proof {
                    assert(apply_line(tm.to_map(), seg@) == tm.to_map());
                }
            },
            Err(err) => {
                proof {
                    assert(!line_ok(rest[0]));
                    assert(!all_lines_ok(rest));
                }
                return Err(err);
            },
        }
        proof {
            assert(line_ok(seg@));
            if all_lines_ok(rest_after) {
                assert forall|i: int| 0 <= i < rest.len() implies line_ok(#[trigger] rest[i]) by {
                    if i > 0 {
                        assert(rest[i] == rest_after[i - 1]);
                        assert(line_ok(rest_after[i - 1]));
                    }
                }
            }
            if all_lines_ok(rest) {
                assert forall|i: int| 0 <= i < rest_after.len() implies line_ok(
                    #[trigger] rest_after[i],
                ) by {
                    assert(rest_after[i] == rest[i + 1]);
                    assert(line_ok(rest[i + 1]));
                }
            }
            assert(all_lines_ok(rest) <==> all_lines_ok(rest_after));
        }
        p = if j < n {
            j + 1
        } else {
            n
        };
    }
    proof {
        assert(spec_lines_from(raw@, p as int) =~= Seq::<Seq<char>>::empty());
    }
    Ok(tm)
}

/// One line's effect on the map when timestamps are rounded down to a
/// grid of `bucket_ms` milliseconds before insertion.
pub open spec fn apply_line_bucketed(m: Map<u64, Seq<char>>, l: Seq<char>, bucket_ms: u64) -> Map<
    u64,
    Seq<char>,
> {
    if line_matches(l) && line_stamp(l) <= u64::MAX {
        m.insert(((line_stamp(l) / (bucket_ms as int)) * (bucket_ms as int)) as u64, line_text(l))
    } else {
        m
    }
}

/// The lines applied in order on the grid, starting from map `m`.
pub open spec fn spec_parse_bucketed_from(
    m: Map<u64, Seq<char>>,
    lines: Seq<Seq<char>>,
    bucket_ms: u64,
) -> Map<u64, Seq<char>>
    decreases lines.len(),
{
    if lines.len() == 0 {
        m
    } else {
        spec_parse_bucketed_from(apply_line_bucketed(m, lines[0], bucket_ms), lines.drop_first(), bucket_ms)
    }
}

/// The timestamp map of a line sequence on the grid.
pub open spec fn spec_parse_bucketed(lines: Seq<Seq<char>>, bucket_ms: u64) -> Map<u64, Seq<char>> {
    spec_parse_bucketed_from(Map::empty(), lines, bucket_ms)
}

/// [`parse`] with each timestamp rounded down to a grid of `bucket_ms`
/// milliseconds before insertion, thinning dense lyrics at the cost of
/// letting near-simultaneous lines collide (the later line wins). A grid
/// of one millisecond changes nothing.
pub fn parse_with_bucket(raw: &str, bucket_ms: u64) -> (r: Result<LyricsMap, ParseError>)
    requires
        bucket_ms >= 1,
    ensures
        r matches Ok(tm) ==> tm.wf() && tm.to_map() == spec_parse_bucketed(
            spec_lines(raw@),
            bucket_ms,
        ) && all_lines_ok(spec_lines(raw@)),
        r is Err ==> !all_lines_ok(spec_lines(raw@)),
{
    let n = raw.unicode_len();
    let mut tm = LyricsMap::new();
    let mut p: usize = 0;
    while p < n
        invariant
            bucket_ms >= 1,
            n == raw@.len(),
            0 <= p <= n,
            tm.wf(),
            spec_parse_bucketed_from(tm.to_map(), spec_lines_from(raw@, p as int), bucket_ms)
                == spec_parse_bucketed(spec_lines(raw@), bucket_ms),
            all_lines_ok(spec_lines(raw@)) <==> all_lines_ok(spec_lines_from(raw@, p as int)),
        decreases n - p,
    {
        let ghost rest = spec_lines_from(raw@, p as int);
        let j = scan_to_newline(raw, p, n);
        let e = if j < n && j > p && raw.get_char(j - 1) == '\r' {
            j - 1
        } else {
            j
        };
        let seg = raw.substring_char(p, e);
        let ghost rest_after: Seq<Seq<char>> = if j < n {
            spec_lines_from(raw@, j + 1)
        } else {
            Seq::empty()
        };
        proof {
            if j < n {
                assert(rest =~= seq![seg@] + rest_after);
            } else {
                assert(seg@ =~= raw@.subrange(p as int, n as int));
                assert(rest =~= seq![seg@]);
                assert(rest =~= seq![seg@] + rest_after);
            }
            assert(rest[0] == seg@);
            assert(rest.drop_first() =~= rest_after);
        }
        match parse_line(seg) {
            Ok(Some((ts, text))) => {
                proof {
                    assert((ts / bucket_ms) * bucket_ms <= ts) by (nonlinear_arith)
                        requires
                            bucket_ms >= 1,
                    ;
                }
                let rounded = (ts / bucket_ms) * bucket_ms;
                proof {
                    assert(apply_line_bucketed(tm.to_map(), seg@, bucket_ms) == tm.to_map().insert(
                        rounded,
                        text@,
                    ));
                }
                tm.insert(rounded, text);
            },
            Ok(None) => {
                proof {
                    assert(apply_line_bucketed(tm.to_map(), seg@, bucket_ms) == tm.to_map());
                }
            },
            Err(err) => {
                proof {
                    assert(!line_ok(rest[0]));
                    assert(!all_lines_ok(rest));
                }
                return Err(err);
            },
        }
        proof {
            assert(line_ok(seg@));
            if all_lines_ok(rest_after) {
                assert forall|i: int| 0 <= i < rest.len() implies line_ok(#[trigger] rest[i]) by {
                    if i > 0 {
                        assert(rest[i] == rest_after[i - 1]);
                        assert(line_ok(rest_after[i - 1]));
                    }
                }
            }
            if all_lines_ok(rest) {
                assert forall|i: int| 0 <= i < rest_after.len() implies line_ok(
                    #[trigger] rest_after[i],
                ) by {
                    assert(rest_after[i] == rest[i + 1]);
                    assert(line_ok(rest[i + 1]));
                }
            }
            assert(all_lines_ok(rest) <==> all_lines_ok(rest_after));
        }
        p = if j < n {
            j + 1
        } else {
            n
        };
    }
    proof {
        assert(spec_lines_from(raw@, p as int) =~= Seq::<Seq<char>>::empty());
    }
    Ok(tm)
}

/// The round trip for one well-formed tagged line: parsing it yields the
/// map holding exactly its text at its computed timestamp, so a lookup
/// at that exact millisecond returns the text.
pub proof fn lemma_parse_round_trip(l: Seq<char>)
    requires
        line_matches(l),
        line_stamp(l) <= u64::MAX,
        forall|i: int| 0 <= i < l.len() ==> l[i] != '\n',
    ensures
        spec_parse(spec_lines(l)) == Map::empty().insert(line_stamp(l) as u64, line_text(l)),
        spec_parse(spec_lines(l)).contains_key(line_stamp(l) as u64),
        spec_parse(spec_lines(l))[line_stamp(l) as u64] == line_text(l),
{
    lemma_digit_run_digits(l, 1);
    lemma_digits_val_nonneg(l, 1, minutes_end(l));
    lemma_digit_run_digits(l, minutes_end(l) + 1);
    lemma_digits_val_nonneg(l, minutes_end(l) + 1, seconds_end(l));
    lemma_digit_run_digits(l, seconds_end(l) + 1);
    lemma_digits_val_nonneg(l, seconds_end(l) + 1, fraction_end(l));
    assert(line_stamp(l) >= 0);
    lemma_newline_none(l, 0);
    let lines = spec_lines(l);
    assert(l.subrange(0, l.len() as int) =~= l);
    assert(lines =~= seq![l]);
    assert(lines[0] == l);
    assert(lines.drop_first() =~= Seq::<Seq<char>>::empty());
    let m1 = apply_line(Map::empty(), l);
    assert(spec_parse_from(m1, Seq::<Seq<char>>::empty()) == m1);
    assert(spec_parse_from(Map::empty(), lines) == spec_parse_from(m1, lines.drop_first()));
    assert(spec_parse(lines) == m1);
}

} // verus!
