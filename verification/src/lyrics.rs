//! The time-indexed lyric table and the windowed "what should be shown
//! at time T" query.

use vstd::prelude::*;
use vstd::map::*;

verus! {

/// The keys of an entry sequence are strictly increasing.
pub open spec fn sorted(es: Seq<(u64, Seq<char>)>) -> bool {
    forall|i: int, j: int| 0 <= i < j < es.len() ==> es[i].0 < es[j].0
}

/// The mathematical map held by an entry sequence; a later entry with the
/// same key wins, which is moot once the keys are unique.
pub open spec fn entries_map(es: Seq<(u64, Seq<char>)>) -> Map<u64, Seq<char>>
    decreases es.len(),
{
    if es.len() == 0 {
        Map::empty()
    } else {
        entries_map(es.drop_last()).insert(es.last().0, es.last().1)
    }
}

/// The greatest index whose key is at most `t`, or -1 when every key
/// exceeds `t` (for a sorted sequence this is the "current" lyric slot).
pub open spec fn current_index(es: Seq<(u64, Seq<char>)>, t: u64) -> int
    decreases es.len(),
{
    if es.len() == 0 {
        -1
    } else if es.last().0 <= t {
        es.len() - 1
    } else {
        current_index(es.drop_last(), t)
    }
}

/// The three-slot lyric window at time `t`: previous, current and next
/// line, with an absent slot rendered as the empty string.
pub open spec fn spec_window(es: Seq<(u64, Seq<char>)>, t: u64) -> Seq<Seq<char>> {
    let c = current_index(es, t);
    seq![
        if c >= 1 {
            es[c - 1].1
        } else {
            Seq::<char>::empty()
        },
        if c >= 0 {
            es[c].1
        } else {
            Seq::<char>::empty()
        },
        if c + 1 < es.len() {
            es[c + 1].1
        } else {
            Seq::<char>::empty()
        },
    ]
}

/// An ordered mapping from a timestamp in milliseconds to the lyric line
/// shown from that moment on.
#[derive(Debug)]
pub struct LyricsMap {
    entries: Vec<(u64, String)>,
}

impl View for LyricsMap {
    type V = Seq<(u64, Seq<char>)>;

    closed spec fn view(&self) -> Seq<(u64, Seq<char>)> {
        self.entries.deep_view()
    }
}

impl LyricsMap {
    /// The map's invariant: timestamps strictly increase.
    pub open spec fn wf(&self) -> bool {
        sorted(self@)
    }

    /// The mathematical map this table holds.
    pub open spec fn to_map(&self) -> Map<u64, Seq<char>> {
        entries_map(self@)
    }

    /// An empty table.
    pub fn new() -> (r: Self)
        ensures
            r.wf(),
            r@ == Seq::<(u64, Seq<char>)>::empty(),
            r.to_map() == Map::<u64, Seq<char>>::empty(),
    {
        let r = LyricsMap { entries: Vec::new() };
        proof {
            assert(r@ =~= Seq::<(u64, Seq<char>)>::empty());
        }
        r
    }

    /// How many lines the table holds.
    pub fn len(&self) -> (n: usize)
        ensures
            n == self@.len(),
    {
        self.entries.len()
    }

    /// Whether the table holds no lines.
    pub fn is_empty(&self) -> (b: bool)
        ensures
            b == (self@.len() == 0),
    {
        self.entries.len() == 0
    }

    /// The timestamp and text at one position, in ascending order.
    pub fn entry_at(&self, i: usize) -> (r: (u64, &String))
        requires
            i < self@.len(),
        ensures
            r.0 == self@[i as int].0,
            r.1@ == self@[i as int].1,
    {
        let e = &self.entries[i];
        (e.0, &e.1)
    }

    /// Insert a line at a timestamp, overwriting any line already there.
    pub fn insert(&mut self, timestamp_ms: u64, text: String)
        requires
            old(self).wf(),
        ensures
            final(self).wf(),
            final(self).to_map() == old(self).to_map().insert(timestamp_ms, text@),
    {
        let ghost es0 = self@;
        let n = self.entries.len();
        let mut i: usize = 0;
        while i < n && self.entries[i].0 < timestamp_ms
            invariant
                self@ == es0,
                n == self@.len(),
                0 <= i <= n,
                forall|j: int| 0 <= j < i ==> es0[j].0 < timestamp_ms,
            decreases n - i,
        {
            i += 1;
        }
        // i is the first position whose key is not below the new timestamp
        if i < n && self.entries[i].0 == timestamp_ms {
            self.entries.remove(i);
            self.entries.insert(i, (timestamp_ms, text));
            proof {
                assert(self@ =~= es0.remove(i as int).insert(i as int, (timestamp_ms, text@)));
                lemma_remove_then_insert_is_update(es0, i as int, timestamp_ms, text@);
            }
        } else {
            proof {
                assert forall|j: int| i <= j < es0.len() implies es0[j].0 > timestamp_ms by {
                    if j > i {
                        assert(es0[i as int].0 < es0[j].0);
                    }
                }
            }
            self.entries.insert(i, (timestamp_ms, text));
            proof {
                assert(self@ =~= es0.insert(i as int, (timestamp_ms, text@)));
                lemma_entries_map_fresh_insert(es0, i as int, timestamp_ms, text@);
            }
        }
    }

    /// The line at an exact timestamp, if one is there.
    pub fn get(&self, timestamp_ms: u64) -> (r: Option<&String>)
        requires
            self.wf(),
        ensures
            match r {
                Some(text) => self.to_map().contains_key(timestamp_ms) && text@
                    == self.to_map()[timestamp_ms],
                None => !self.to_map().contains_key(timestamp_ms),
            },
    {
        let n = self.entries.len();
        let mut i: usize = 0;
        while i < n
            invariant
                self.wf(),
                n == self@.len(),
                0 <= i <= n,
                forall|j: int| 0 <= j < i ==> self@[j].0 != timestamp_ms,
            decreases n - i,
        {
            if self.entries[i].0 == timestamp_ms {
                proof {
                    lemma_entries_map_index(self@, i as int);
                }
                return Some(&self.entries[i].1);
            }
            i += 1;
        }
        proof {
            lemma_entries_map_no_key(self@, timestamp_ms);
        }
        None
    }

    /// The lyric window at an elapsed time: previous, current and next
    /// line in that order, an absent slot given as the empty string.
    ///
    /// This only reads the table, and its result is a function of the
    /// table and the elapsed time alone, so repeated calls with the same
    /// pair agree.
    pub fn lookup_window(&self, elapsed_ms: u64) -> (r: Vec<String>)
        requires
            self.wf(),
        ensures
            r.deep_view() == spec_window(self@, elapsed_ms),
            r@.len() == 3,
    {
        let ghost es = self@;
        let n = self.entries.len();
        let mut have_current = false;
        let mut c: usize = 0;
        let mut i: usize = 0;
        proof {
            assert(es.take(0) =~= Seq::<(u64, Seq<char>)>::empty());
        }
        while i < n
            invariant
                es == self@,
                n == es.len(),
                0 <= i <= n,
                have_current ==> c < i && current_index(es.take(i as int), elapsed_ms) == c,
                !have_current ==> current_index(es.take(i as int), elapsed_ms) == -1,
            decreases n - i,
        {
            proof {
                assert(es.take(i + 1).drop_last() =~= es.take(i as int));
                assert(es.take(i + 1).last() == es[i as int]);
            }
            if self.entries[i].0 <= elapsed_ms {
                have_current = true;
                c = i;
            }
            i += 1;
        }
        proof {
            assert(es.take(n as int) =~= es);
        }
        let ghost w = spec_window(es, elapsed_ms);
        let mut out: Vec<String> = Vec::new();
        if have_current && c >= 1 {
            out.push(self.entries[c - 1].1.clone());
        } else {
            out.push(String::new());
        }
        if have_current {
            out.push(self.entries[c].1.clone());
        } else {
            out.push(String::new());
        }
        let next_i = if have_current {
            c + 1
        } else {
            0
        };
        if next_i < n {
            out.push(self.entries[next_i].1.clone());
        } else {
            out.push(String::new());
        }
        proof {
            assert(out.deep_view() =~= w);
        }
        out
    }
}

impl Clone for LyricsMap {
    /// An equal table: same timestamps, same lines.
    fn clone(&self) -> (r: Self)
        ensures
            r@ == self@,
    {
        let mut entries: Vec<(u64, String)> = Vec::new();
        let n = self.entries.len();
        let mut i: usize = 0;
        while i < n
            invariant
                n == self.entries@.len(),
                0 <= i <= n,
                entries@.len() == i,
                forall|j: int|
                    0 <= j < i ==> entries@[j].0 == self.entries@[j].0 && entries@[j].1@
                        == self.entries@[j].1@,
            decreases n - i,
        {
            let e = &self.entries[i];
            entries.push((e.0, e.1.clone()));
            i += 1;
        }
        proof {
            assert(entries.deep_view() =~= self.entries.deep_view());
        }
        LyricsMap { entries }
    }
}

/// The current slot is always a position of the sequence or the empty
/// marker just before it.
pub proof fn lemma_current_index_bounds(es: Seq<(u64, Seq<char>)>, t: u64)
    ensures
        -1 <= current_index(es, t) < es.len(),
    decreases es.len(),
{
    if es.len() > 0 && es.last().0 > t {
        lemma_current_index_bounds(es.drop_last(), t);
    }
}

/// The window only moves forward: a later elapsed time never moves the
/// current line backward.
pub proof fn lemma_current_index_monotonic(es: Seq<(u64, Seq<char>)>, t1: u64, t2: u64)
    requires
        t1 <= t2,
    ensures
        current_index(es, t1) <= current_index(es, t2),
    decreases es.len(),
{
    if es.len() > 0 {
        if es.last().0 <= t1 {
        } else if es.last().0 <= t2 {
            lemma_current_index_bounds(es.drop_last(), t1);
        } else {
            lemma_current_index_monotonic(es.drop_last(), t1, t2);
        }
    }
}

/// Window lookup is idempotent: it takes the table by shared reference,
/// so it cannot change it, and any two results that meet
/// [`LyricsMap::lookup_window`]'s contract for the same table and
/// elapsed time carry the same lines.
pub proof fn lemma_lookup_window_idempotent(m: LyricsMap, t: u64, r1: Vec<String>, r2: Vec<String>)
    requires
        r1.deep_view() == spec_window(m@, t),
        r2.deep_view() == spec_window(m@, t),
    ensures
        r1@.len() == r2@.len(),
        forall|i: int| 0 <= i < r1@.len() ==> r1@[i]@ == r2@[i]@,
{
    assert(r1.deep_view().len() == r1@.len());
    assert(r2.deep_view().len() == r2@.len());
    assert forall|i: int| 0 <= i < r1@.len() implies r1@[i]@ == r2@[i]@ by {
        assert(r1.deep_view()[i] == r1@[i]@);
        assert(r2.deep_view()[i] == r2@[i]@);
    }
}

/// For a sorted sequence, each entry is in the map under its own key.
pub proof fn lemma_entries_map_index(es: Seq<(u64, Seq<char>)>, i: int)
    requires
        sorted(es),
        0 <= i < es.len(),
    ensures
        entries_map(es).contains_key(es[i].0),
        entries_map(es)[es[i].0] == es[i].1,
    decreases es.len(),
{
    if i == es.len() - 1 {
    } else {
        lemma_entries_map_index(es.drop_last(), i);
        assert(es.drop_last()[i] == es[i]);
        assert(es[i].0 != es.last().0);
    }
}

/// A key of the map is the key of some entry.
pub proof fn lemma_entries_map_key_to_index(es: Seq<(u64, Seq<char>)>, k: u64)
    requires
        entries_map(es).contains_key(k),
    ensures
        exists|i: int| 0 <= i < es.len() && (#[trigger] es[i]).0 == k,
    decreases es.len(),
{
    if es.len() > 0 {
        if es.last().0 == k {
            assert(es[es.len() - 1].0 == k);
        } else {
            lemma_entries_map_key_to_index(es.drop_last(), k);
            let i = choose|i: int| 0 <= i < es.drop_last().len() && (#[trigger] es.drop_last()[i]).0
                == k;
            assert(es[i].0 == k);
        }
    }
}

/// A sorted entry sequence is determined by the map it holds: two sorted
/// tables with the same timestamps and lines are the same table. With
/// this, everything said of a table's map carries over to its entries.
pub proof fn lemma_sorted_entries_unique(es1: Seq<(u64, Seq<char>)>, es2: Seq<(u64, Seq<char>)>)
    requires
        sorted(es1),
        sorted(es2),
        entries_map(es1) == entries_map(es2),
    ensures
        es1 == es2,
    decreases es1.len(),
{
    if es1.len() == 0 {
        if es2.len() > 0 {
            lemma_entries_map_index(es2, es2.len() - 1);
            assert(false);
        }
        assert(es1 =~= es2);
    } else if es2.len() == 0 {
        lemma_entries_map_index(es1, es1.len() - 1);
        assert(false);
    } else {
        let k1 = es1.last().0;
        let k2 = es2.last().0;
        lemma_entries_map_index(es1, es1.len() - 1);
        lemma_entries_map_index(es2, es2.len() - 1);
        // each last key lies in the shared domain, whose maximum both are
        lemma_entries_map_key_to_index(es2, k1);
        let i2 = choose|i: int| 0 <= i < es2.len() && (#[trigger] es2[i]).0 == k1;
        if i2 < es2.len() - 1 {
            assert(es2[i2].0 < k2);
        }
        lemma_entries_map_key_to_index(es1, k2);
        let i1 = choose|i: int| 0 <= i < es1.len() && (#[trigger] es1[i]).0 == k2;
        if i1 < es1.len() - 1 {
            assert(es1[i1].0 < k1);
        }
        assert(k1 == k2);
        assert(es1.last().1 == entries_map(es1)[k1]);
        assert(es2.last().1 == entries_map(es2)[k1]);
        // the last entry gone, the maps still agree
        assert(forall|i: int| 0 <= i < es1.len() - 1 ==> (#[trigger] es1.drop_last()[i]).0 < k1);
        assert(forall|i: int| 0 <= i < es2.len() - 1 ==> (#[trigger] es2.drop_last()[i]).0 < k1);
        assert(forall|i: int| 0 <= i < es1.drop_last().len() ==> (#[trigger] es1.drop_last()[i]).0
            != k1);
        assert(forall|i: int| 0 <= i < es2.drop_last().len() ==> (#[trigger] es2.drop_last()[i]).0
            != k1);
        lemma_entries_map_no_key(es1.drop_last(), k1);
        lemma_entries_map_no_key(es2.drop_last(), k1);
        assert_maps_equal!(entries_map(es1.drop_last()), entries_map(es1).remove(k1));
        assert_maps_equal!(entries_map(es2.drop_last()), entries_map(es2).remove(k1));
        assert(sorted(es1.drop_last()));
        assert(sorted(es2.drop_last()));
        lemma_sorted_entries_unique(es1.drop_last(), es2.drop_last());
        assert(es1.len() == es2.len());
        assert forall|i: int| 0 <= i < es1.len() implies es1[i] == es2[i] by {
            if i < es1.len() - 1 {
                assert(es1.drop_last()[i] == es2.drop_last()[i]);
            } else {
                assert(es1[i].0 == es2[i].0 && es1[i].1 == es2[i].1);
            }
        }
        assert(es1 =~= es2);
    }
}

/// A key that appears nowhere in the sequence is not in the map.
pub proof fn lemma_entries_map_no_key(es: Seq<(u64, Seq<char>)>, k: u64)
    requires
        forall|i: int| 0 <= i < es.len() ==> es[i].0 != k,
    ensures
        !entries_map(es).contains_key(k),
    decreases es.len(),
{
    if es.len() > 0 {
        assert(es[es.len() - 1].0 != k);
        assert(forall|i: int| 0 <= i < es.drop_last().len() ==> es.drop_last()[i] == es[i]);
        lemma_entries_map_no_key(es.drop_last(), k);
    }
}

/// Removing an entry and re-inserting at the same position with the same
/// key is an update of that position's text, at the map level and for
/// sortedness alike.
proof fn lemma_remove_then_insert_is_update(es: Seq<(u64, Seq<char>)>, i: int, k: u64, v: Seq<char>)
    requires
        sorted(es),
        0 <= i < es.len(),
        es[i].0 == k,
    ensures
        sorted(es.remove(i).insert(i, (k, v))),
        entries_map(es.remove(i).insert(i, (k, v))) == entries_map(es).insert(k, v),
    decreases es.len(),
{
    let es2 = es.remove(i).insert(i, (k, v));
    assert(es2 =~= es.update(i, (k, v)));
    if i == es.len() - 1 {
        assert(es2.drop_last() =~= es.drop_last());
    } else {
        assert(es2.drop_last() =~= es.drop_last().remove(i).insert(i, (k, v)));
        assert(sorted(es.drop_last()));
        lemma_remove_then_insert_is_update(es.drop_last(), i, k, v);
        assert(es2.last() == es.last());
        // the two outer inserts commute because the keys differ
        assert(es.last().0 != k);
        assert_maps_equal!(
            entries_map(es.drop_last()).insert(k, v).insert(es.last().0, es.last().1),
            entries_map(es.drop_last()).insert(es.last().0, es.last().1).insert(k, v)
        );
    }
}

/// Inserting a fresh key at its sorted position extends the map by that
/// key and keeps the sequence sorted.
proof fn lemma_entries_map_fresh_insert(es: Seq<(u64, Seq<char>)>, i: int, k: u64, v: Seq<char>)
    requires
        sorted(es),
        0 <= i <= es.len(),
        forall|j: int| 0 <= j < i ==> es[j].0 < k,
        forall|j: int| i <= j < es.len() ==> es[j].0 > k,
    ensures
        sorted(es.insert(i, (k, v))),
        entries_map(es.insert(i, (k, v))) == entries_map(es).insert(k, v),
    decreases es.len(),
{
    let es2 = es.insert(i, (k, v));
    assert forall|p: int, q: int| 0 <= p < q < es2.len() implies es2[p].0 < es2[q].0 by {
        if p < i && q < i {
            assert(es2[p] == es[p] && es2[q] == es[q]);
        } else if p < i && q == i {
            assert(es2[p] == es[p]);
        } else if p < i && q > i {
            assert(es2[p] == es[p] && es2[q] == es[q - 1]);
        } else if p == i {
            assert(es2[q] == es[q - 1]);
        } else {
            assert(es2[p] == es[p - 1] && es2[q] == es[q - 1]);
        }
    }
    if i == es.len() {
        assert(es2.drop_last() =~= es);
        assert(es2.last() == (k, v));
    } else {
        assert(es2.drop_last() =~= es.drop_last().insert(i, (k, v)));
        assert(es2.last() == es.last());
        assert(sorted(es.drop_last()));
        lemma_entries_map_fresh_insert(es.drop_last(), i, k, v);
        assert(es.last().0 != k);
        assert_maps_equal!(
            entries_map(es.drop_last()).insert(k, v).insert(es.last().0, es.last().1),
            entries_map(es.drop_last()).insert(es.last().0, es.last().1).insert(k, v)
        );
    }
}

} // verus!



