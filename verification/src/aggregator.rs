//! Aggregation of a day's key events: per-key counts, ranking, hourly
//! distribution, pauses/deletes/repeats, special-key counts and the three
//! key classes.

use vstd::prelude::*;
use std::collections::HashMap;
use crate::event::KeyEvent;
use crate::clock::{in_chrono_range, hour_of, utc_hour_of_millis, hour_bucket, spec_hour_bucket};
use vstd::std_specs::iter::IteratorSpec;

verus! {

broadcast use vstd::std_specs::hash::group_hash_axioms;

/// Namespace for the aggregation functions.
pub struct Aggregator;

/// Number of events in `s` with key code `code`.
pub open spec fn count_code(s: Seq<KeyEvent>, code: u32) -> nat
    decreases s.len(),
{
    if s.len() == 0 {
        0
    } else {
        count_code(s.drop_last(), code) + if s.last().key_code == code { 1nat } else { 0nat }
    }
}

/// `m` maps each key code that occurs in `s` to its number of occurrences,
/// and holds no other key.
pub open spec fn is_count_map(m: Map<u32, usize>, s: Seq<KeyEvent>) -> bool {
    &&& forall|k: u32| #[trigger] m.contains_key(k) == (count_code(s, k) > 0)
    &&& forall|k: u32| #[trigger] m.contains_key(k) ==> m[k] == count_code(s, k)
}

proof fn lemma_count_code_bound(s: Seq<KeyEvent>, code: u32)
    ensures
        count_code(s, code) <= s.len(),
    decreases s.len(),
{
    if s.len() > 0 {
        lemma_count_code_bound(s.drop_last(), code);
    }
}

/// `v` lists the entries of `m`, each key once, in some order.
pub open spec fn lists_entries(v: Seq<(u32, usize)>, m: Map<u32, usize>) -> bool {
    &&& v.len() == m.dom().len()
    &&& forall|i: int| 0 <= i < v.len() ==> #[trigger] m.contains_key(v[i].0) && m[v[i].0] == v[i].1
    &&& forall|i: int, j: int| 0 <= i < v.len() && 0 <= j < v.len() && i != j ==> v[i].0 != v[j].0
    &&& forall|k: u32| #[trigger] m.contains_key(k) ==> exists|i: int| 0 <= i < v.len() && v[i].0 == k
}

/// The entries of a count map, in iteration order.
pub(crate) fn map_entries(m: &HashMap<u32, usize>) -> (v: Vec<(u32, usize)>)
    ensures
        lists_entries(v@, m@),
{
    let mut v: Vec<(u32, usize)> = Vec::new();
    let ghost r = vstd::std_specs::hash::spec_hash_map_iter(m).remaining();
    for (k, c) in it: m.iter()
        invariant
            v.len() == it.index(),
            it.seq() == r,
            forall|i: int| 0 <= i < v.len() ==> v[i] == (*it.seq()[i].0, *it.seq()[i].1),
    {
        v.push((*k, *c));
    }
    proof {
        broadcast use vstd::std_specs::hash::axiom_spec_hash_map_iter;
        assert(r.no_duplicates());
        assert forall|i: int| 0 <= i < v.len() implies #[trigger] m@.contains_key(v@[i].0) && m@[v@[i].0] == v@[i].1 by {
            assert(m@.contains_key(*r[i].0));
        }
        assert forall|i: int, j: int| 0 <= i < v.len() && 0 <= j < v.len() && i != j implies v@[i].0 != v@[j].0 by {
            if v@[i].0 == v@[j].0 {
                assert(m@.contains_key(*r[i].0));
                assert(m@.contains_key(*r[j].0));
                assert(r[i] == r[j]);
            }
        }
        assert forall|k: u32| #[trigger] m@.contains_key(k) implies exists|i: int| 0 <= i < v.len() && v@[i].0 == k by {
            assert(r.contains((&k, &m@[k])));
            let i = choose|i: int| 0 <= i < r.len() && r[i] == (&k, &m@[k]);
            assert(v@[i].0 == k);
        }
    }
    v
}

proof fn lemma_swap_lists_entries(s: Seq<(u32, usize)>, m: Map<u32, usize>, i: int, j: int)
    requires
        lists_entries(s, m),
        0 <= i < s.len(),
        0 <= j < s.len(),
    ensures
        lists_entries(s.update(i, s[j]).update(j, s[i]), m),
{
    let t = s.update(i, s[j]).update(j, s[i]);
    let perm = |x: int| if x == i { j } else if x == j { i } else { x };
    assert forall|x: int| 0 <= x < t.len() implies t[x] == s[perm(x)] by {}
    assert forall|x: int| 0 <= x < t.len() implies #[trigger] m.contains_key(t[x].0) && m[t[x].0] == t[x].1 by {
        assert(t[x] == s[perm(x)]);
    }
    assert forall|x: int, y: int| 0 <= x < t.len() && 0 <= y < t.len() && x != y implies t[x].0 != t[y].0 by {
        assert(t[x] == s[perm(x)]);
        assert(t[y] == s[perm(y)]);
    }
    assert forall|k: u32| #[trigger] m.contains_key(k) implies exists|x: int| 0 <= x < t.len() && t[x].0 == k by {
        let y = choose|y: int| 0 <= y < s.len() && s[y].0 == k;
        assert(t[perm(y)] == s[y]);
    }
}

/// `r` holds the `n` entries of `m` with the largest counts (all entries
/// when `m` has fewer), ordered by count from largest to smallest.  Among
/// entries with equal counts the choice and order are unspecified, as the
/// map's iteration order is.
pub open spec fn is_top_n(r: Seq<(u32, usize)>, m: Map<u32, usize>, n: nat) -> bool {
    &&& r.len() == (if n < m.dom().len() { n } else { m.dom().len() })
    &&& forall|i: int| 0 <= i < r.len() ==> #[trigger] m.contains_key(r[i].0) && m[r[i].0] == r[i].1
    &&& forall|i: int, j: int| 0 <= i < r.len() && 0 <= j < r.len() && i != j ==> r[i].0 != r[j].0
    &&& forall|i: int, j: int| 0 <= i < j < r.len() ==> r[i].1 >= r[j].1
    &&& forall|k: u32, i: int|
        #![trigger m.contains_key(k), r[i]]
        m.contains_key(k) && 0 <= i < r.len() && (forall|j: int| 0 <= j < r.len() ==> r[j].0 != k)
            ==> m[k] <= r[i].1
}

impl Aggregator {
    /// The `n` most pressed keys with their counts, most pressed first.
    #[verifier::spinoff_prover]
    pub fn top_n(counts: &HashMap<u32, usize>, n: usize) -> (r: Vec<(u32, usize)>)
        ensures
            is_top_n(r@, counts@, n as nat),
    {
        let mut e = map_entries(counts);
        let len = e.len();
        let t = if n < len { n } else { len };
        let mut i: usize = 0;
        while i < t
            invariant
                t <= len,
                len == e.len(),
                t == (if n < counts@.dom().len() { n as int } else { counts@.dom().len() as int }),
                i <= t,
                lists_entries(e@, counts@),
                forall|a: int, b: int| 0 <= a < b < i ==> e@[a].1 >= e@[b].1,
                forall|a: int, b: int| 0 <= a < i && i <= b < len ==> e@[a].1 >= e@[b].1,
            decreases t - i,
        {
            let mut best = i;
            let mut j = i + 1;
            while j < len
                invariant
                    i < t <= len,
                    len == e.len(),
                    i <= best < j <= len,
                    forall|b: int| i <= b < j ==> e@[best as int].1 >= e@[b].1,
                decreases len - j,
            {
                if e[j].1 > e[best].1 {
                    best = j;
                }
                j = j + 1;
            }
            let a = e[i];
            let b = e[best];
            proof {
                lemma_swap_lists_entries(e@, counts@, i as int, best as int);
            }
            e.set(i, b);
            e.set(best, a);
            i = i + 1;
        }
        let ghost full = e@;
        e.truncate(t);
        proof {
            assert(e@ == full.take(t as int));
            assert forall|k: u32, x: int|
                #![trigger counts@.contains_key(k), e@[x]]
                counts@.contains_key(k) && 0 <= x < e@.len() && (forall|j: int| 0 <= j < e@.len() ==> e@[j].0 != k)
                implies counts@[k] <= e@[x].1 by {
                let y = choose|y: int| 0 <= y < full.len() && full[y].0 == k;
                if y < t {
                    assert(e@[y].0 == k);
                }
                assert(full[y].1 == counts@[k]);
                assert(full[x] == e@[x]);
            }
        }
        e
    }

    /// Number of presses of each key.
    pub fn count_by_key(events: &[KeyEvent]) -> (m: HashMap<u32, usize>)
        ensures
            is_count_map(m@, events@),
    {
        let mut m: HashMap<u32, usize> = HashMap::new();
        let mut i: usize = 0;
        while i < events.len()
            invariant
                i <= events@.len(),
                is_count_map(m@, events@.take(i as int)),
            decreases events@.len() - i,
        {
            let code = events[i].key_code;
            let ghost prev = events@.take(i as int);
            let ghost next = events@.take(i as int + 1);
            proof {
                assert(next.drop_last() == prev);
                assert(next.last() == events@[i as int]);
                lemma_count_code_bound(prev, code);
            }
            let cur: usize = match m.get(&code) {
                Some(c) => *c,
                None => 0,
            };
            m.insert(code, cur + 1);
            i = i + 1;
            proof {
                assert forall|k: u32| #[trigger] m@.contains_key(k) == (count_code(next, k) > 0) by {
                    assert(count_code(next, k) == count_code(prev, k) + if k == code { 1nat } else { 0nat });
                }
                assert forall|k: u32| #[trigger] m@.contains_key(k) implies m@[k] == count_code(next, k) by {
                    assert(count_code(next, k) == count_code(prev, k) + if k == code { 1nat } else { 0nat });
                }
            }
        }
        assert(events@.take(events@.len() as int) == events@);
        m
    }
}

/// Number of events in `s` whose UTC hour (within `chrono`'s range) is `h`.
pub open spec fn count_hour(s: Seq<KeyEvent>, h: int) -> nat
    decreases s.len(),
{
    if s.len() == 0 {
        0
    } else {
        let ms = s.last().timestamp_ms as int;
        count_hour(s.drop_last(), h)
            + if in_chrono_range(ms) && hour_of(ms) == h { 1nat } else { 0nat }
    }
}

proof fn lemma_count_hour_bound(s: Seq<KeyEvent>, h: int)
    ensures
        count_hour(s, h) <= s.len(),
    decreases s.len(),
{
    if s.len() > 0 {
        lemma_count_hour_bound(s.drop_last(), h);
    }
}

impl Aggregator {
    /// Distribution of the events over the 24 hours of the UTC day.
    pub fn hourly_buckets(events: &[KeyEvent]) -> (b: [usize; 24])
        ensures
            forall|h: int| 0 <= h < 24 ==> b[h] == count_hour(events@, h),
    {
        let mut b = [0usize; 24];
        let mut i: usize = 0;
        while i < events.len()
            invariant
                i <= events@.len(),
                forall|h: int| 0 <= h < 24 ==> b[h] == count_hour(events@.take(i as int), h),
            decreases events@.len() - i,
        {
            let ghost prev = events@.take(i as int);
            let ghost next = events@.take(i as int + 1);
            proof {
                assert(next.drop_last() == prev);
                assert(next.last() == events@[i as int]);
            }
            let ms = events[i].timestamp_ms;
            match utc_hour_of_millis(ms) {
                Some(hour) => {
                    assert(hour < 24);
                    let hu = hour as usize;
                    proof {
                        lemma_count_hour_bound(prev, hu as int);
                    }
                    b[hu] = b[hu] + 1;
                },
                None => {},
            }
            i = i + 1;
        }
        assert(events@.take(events@.len() as int) == events@);
        b
    }
}

/// Number of events in `s` satisfying `p`.
pub open spec fn count_where(s: Seq<KeyEvent>, p: spec_fn(KeyEvent) -> bool) -> nat
    decreases s.len(),
{
    if s.len() == 0 {
        0
    } else {
        count_where(s.drop_last(), p) + if p(s.last()) { 1nat } else { 0nat }
    }
}

/// Number of adjacent pairs `(s[i], s[i + 1])` satisfying `p`.
pub open spec fn count_adjacent(s: Seq<KeyEvent>, p: spec_fn(KeyEvent, KeyEvent) -> bool) -> nat
    decreases s.len(),
{
    if s.len() < 2 {
        0
    } else {
        count_adjacent(s.drop_last(), p) + if p(s[s.len() - 2], s.last()) { 1nat } else { 0nat }
    }
}

pub proof fn lemma_count_where_bound(s: Seq<KeyEvent>, p: spec_fn(KeyEvent) -> bool)
    ensures
        count_where(s, p) <= s.len(),
    decreases s.len(),
{
    if s.len() > 0 {
        lemma_count_where_bound(s.drop_last(), p);
    }
}

pub proof fn lemma_count_adjacent_bound(s: Seq<KeyEvent>, p: spec_fn(KeyEvent, KeyEvent) -> bool)
    ensures
        count_adjacent(s, p) <= s.len(),
    decreases s.len(),
{
    if s.len() >= 2 {
        lemma_count_adjacent_bound(s.drop_last(), p);
    }
}

/// A pause: the gap between two consecutive events exceeds the threshold.
pub open spec fn is_pause(threshold: int) -> spec_fn(KeyEvent, KeyEvent) -> bool {
    |a: KeyEvent, b: KeyEvent| b.timestamp_ms - a.timestamp_ms > threshold
}

/// A repeat: two consecutive events with the same key.
pub open spec fn is_repeat() -> spec_fn(KeyEvent, KeyEvent) -> bool {
    |a: KeyEvent, b: KeyEvent| a.key_code == b.key_code
}

/// A delete: Backspace (8) or Delete (46).
pub open spec fn is_delete() -> spec_fn(KeyEvent) -> bool {
    |e: KeyEvent| e.key_code == 8 || e.key_code == 46
}

/// Events with the given key code.
pub open spec fn has_code(code: u32) -> spec_fn(KeyEvent) -> bool {
    |e: KeyEvent| e.key_code == code
}

/// W, A, S or D.
pub open spec fn is_wasd_code(c: u32) -> bool {
    c == 87 || c == 65 || c == 83 || c == 68
}

/// Events on W, A, S or D.
pub open spec fn is_wasd() -> spec_fn(KeyEvent) -> bool {
    |e: KeyEvent| is_wasd_code(e.key_code)
}

/// Game keys: W A S D, Space, Enter.
pub open spec fn is_game_code(c: u32) -> bool {
    is_wasd_code(c) || c == 32 || c == 13
}

/// Function keys: Backspace, Delete, Shift, Ctrl, Alt, Meta.
pub open spec fn is_modifier_code(c: u32) -> bool {
    c == 8 || c == 46 || c == 16 || c == 17 || c == 18 || c == 91
}

/// Text keys: the digits and the letters other than W, A, S, D.
pub open spec fn is_text_code(c: u32) -> bool {
    (48 <= c <= 57) || c == 66 || c == 67 || c == 69 || c == 70 || (71 <= c <= 82)
        || (84 <= c <= 86) || (88 <= c <= 90)
}

/// Events on game keys.
pub open spec fn is_game() -> spec_fn(KeyEvent) -> bool {
    |e: KeyEvent| is_game_code(e.key_code)
}

/// Events on function keys.
pub open spec fn is_modifier() -> spec_fn(KeyEvent) -> bool {
    |e: KeyEvent| is_modifier_code(e.key_code)
}

/// Events on text keys.
pub open spec fn is_text() -> spec_fn(KeyEvent) -> bool {
    |e: KeyEvent| is_text_code(e.key_code)
}

/// Three-way key classification counts.
#[derive(Debug, Clone, Copy, Default, PartialEq, Eq, Structural)]
pub struct KeyClassSummary {
    pub game_keys: i64,
    pub text_keys: i64,
    pub modifier_keys: i64,
}

/// Counts of the keys the orchestrator's theme rules look at.
#[derive(Debug, Clone, Copy, Default, PartialEq, Eq, Structural)]
pub struct SpecialKeyCounts {
    pub backspace_count: usize,
    pub delete_count: usize,
    pub enter_count: usize,
    pub space_count: usize,
    pub wasd_count: usize,
    pub total_events: usize,
}

/// The integer ingredients of the four behaviour metrics.
#[derive(Debug, Clone, Copy, PartialEq, Eq, Structural)]
pub struct MetricCounts {
    /// Number of events.
    pub total_keys: usize,
    /// Hours with at least one event.
    pub active_hours: usize,
    /// Gaps between consecutive events longer than two seconds.
    pub pauses_over_2s: usize,
    /// Gaps between consecutive events (one fewer than the events, or 0).
    pub total_intervals: usize,
}

/// Number of non-zero entries among the first `k` hourly buckets.
pub open spec fn active_hours_upto(h: Seq<usize>, k: int) -> nat
    decreases k,
{
    if k <= 0 {
        0
    } else {
        active_hours_upto(h, k - 1) + if h[k - 1] > 0 { 1nat } else { 0nat }
    }
}

/// Smallest timestamp among the events, or 0 when there are none.
pub open spec fn first_active(s: Seq<KeyEvent>) -> int
    decreases s.len(),
{
    if s.len() == 0 {
        0
    } else if s.len() == 1 {
        s[0].timestamp_ms as int
    } else {
        let rest = first_active(s.drop_last());
        let t = s.last().timestamp_ms as int;
        if t < rest { t } else { rest }
    }
}

impl Aggregator {
    /// Pauses (gaps above `pause_threshold_ms`), deletes (Backspace or
    /// Delete) and repeats (same key twice in a row).
    pub fn count_meta(events: &[KeyEvent], pause_threshold_ms: i64) -> (r: (usize, usize, usize))
        ensures
            r.0 == count_adjacent(events@, is_pause(pause_threshold_ms as int)),
            r.1 == count_where(events@, is_delete()),
            r.2 == count_adjacent(events@, is_repeat()),
    {
        let mut pauses: usize = 0;
        let mut deletes: usize = 0;
        let mut repeats: usize = 0;
        let mut i: usize = 0;
        while i < events.len()
            invariant
                i <= events@.len(),
                pauses == count_adjacent(events@.take(i as int), is_pause(pause_threshold_ms as int)),
                deletes == count_where(events@.take(i as int), is_delete()),
                repeats == count_adjacent(events@.take(i as int), is_repeat()),
            decreases events@.len() - i,
        {
            let ghost prev = events@.take(i as int);
            let ghost next = events@.take(i as int + 1);
            proof {
                assert(next.drop_last() == prev);
                assert(next.last() == events@[i as int]);
                lemma_count_adjacent_bound(prev, is_pause(pause_threshold_ms as int));
                lemma_count_adjacent_bound(prev, is_repeat());
                lemma_count_where_bound(prev, is_delete());
            }
            if i > 0 {
                assert(next[next.len() - 2] == events@[i - 1]);
                let gap: i128 = events[i].timestamp_ms as i128 - events[i - 1].timestamp_ms as i128;
                if gap > pause_threshold_ms as i128 {
                    pauses = pauses + 1;
                }
                if events[i - 1].key_code == events[i].key_code {
                    repeats = repeats + 1;
                }
            }
            let c = events[i].key_code;
            if c == 8 || c == 46 {
                deletes = deletes + 1;
            }
            i = i + 1;
        }
        assert(events@.take(events@.len() as int) == events@);
        (pauses, deletes, repeats)
    }

    /// Counts of Backspace, Delete, Enter, Space and WASD presses, and of
    /// all events.
    pub fn count_special_keys(events: &[KeyEvent]) -> (c: SpecialKeyCounts)
        ensures
            c.backspace_count == count_where(events@, has_code(8)),
            c.delete_count == count_where(events@, has_code(46)),
            c.enter_count == count_where(events@, has_code(13)),
            c.space_count == count_where(events@, has_code(32)),
            c.wasd_count == count_where(events@, is_wasd()),
            c.total_events == events@.len(),
    {
        let mut c = SpecialKeyCounts {
            backspace_count: 0,
            delete_count: 0,
            enter_count: 0,
            space_count: 0,
            wasd_count: 0,
            total_events: 0,
        };
        let mut i: usize = 0;
        while i < events.len()
            invariant
                i <= events@.len(),
                c.backspace_count == count_where(events@.take(i as int), has_code(8)),
                c.delete_count == count_where(events@.take(i as int), has_code(46)),
                c.enter_count == count_where(events@.take(i as int), has_code(13)),
                c.space_count == count_where(events@.take(i as int), has_code(32)),
                c.wasd_count == count_where(events@.take(i as int), is_wasd()),
            decreases events@.len() - i,
        {
            let ghost prev = events@.take(i as int);
            let ghost next = events@.take(i as int + 1);
            proof {
                assert(next.drop_last() == prev);
                assert(next.last() == events@[i as int]);
                lemma_count_where_bound(prev, has_code(8));
                lemma_count_where_bound(prev, has_code(46));
                lemma_count_where_bound(prev, has_code(13));
                lemma_count_where_bound(prev, has_code(32));
                lemma_count_where_bound(prev, is_wasd());
            }
            let k = events[i].key_code;
            if k == 8 {
                c.backspace_count = c.backspace_count + 1;
            } else if k == 46 {
                c.delete_count = c.delete_count + 1;
            } else if k == 13 {
                c.enter_count = c.enter_count + 1;
            } else if k == 32 {
                c.space_count = c.space_count + 1;
            } else if k == 87 || k == 65 || k == 83 || k == 68 {
                c.wasd_count = c.wasd_count + 1;
            }
            i = i + 1;
        }
        assert(events@.take(events@.len() as int) == events@);
        c.total_events = events.len();
        c
    }

    /// Counts per key class.  Game keys take precedence over function keys,
    /// which take precedence over text keys; other keys are ignored.
    pub fn classify_keys(events: &[KeyEvent]) -> (s: KeyClassSummary)
        requires
            events@.len() <= i64::MAX,
        ensures
            s.game_keys == count_where(events@, is_game()),
            s.modifier_keys == count_where(events@, is_modifier()),
            s.text_keys == count_where(events@, is_text()),
    {
        let mut s = KeyClassSummary { game_keys: 0, text_keys: 0, modifier_keys: 0 };
        let mut i: usize = 0;
        while i < events.len()
            invariant
                i <= events@.len(),
                events@.len() <= i64::MAX,
                s.game_keys == count_where(events@.take(i as int), is_game()),
                s.modifier_keys == count_where(events@.take(i as int), is_modifier()),
                s.text_keys == count_where(events@.take(i as int), is_text()),
            decreases events@.len() - i,
        {
            let ghost prev = events@.take(i as int);
            let ghost next = events@.take(i as int + 1);
            proof {
                assert(next.drop_last() == prev);
                assert(next.last() == events@[i as int]);
                lemma_count_where_bound(prev, is_game());
                lemma_count_where_bound(prev, is_modifier());
                lemma_count_where_bound(prev, is_text());
            }
            let code = events[i].key_code;
            if code == 87 || code == 65 || code == 83 || code == 68 || code == 32 || code == 13 {
                s.game_keys = s.game_keys + 1;
            } else if code == 8 || code == 46 || code == 16 || code == 17 || code == 18 || code == 91 {
                s.modifier_keys = s.modifier_keys + 1;
            } else if (48 <= code && code <= 57) || code == 66 || code == 67 || code == 69 || code == 70
                || (71 <= code && code <= 82) || (84 <= code && code <= 86) || (88 <= code && code <= 90) {
                s.text_keys = s.text_keys + 1;
            }
            i = i + 1;
        }
        assert(events@.take(events@.len() as int) == events@);
        s
    }

    /// Earliest timestamp of the events, or 0 when there are none.
    pub fn first_active_ms(events: &[KeyEvent]) -> (t: i64)
        ensures
            t == first_active(events@),
    {
        if events.len() == 0 {
            return 0;
        }
        let mut best = events[0].timestamp_ms;
        let mut i: usize = 1;
        assert(events@.take(1) == seq![events@[0]]);
        while i < events.len()
            invariant
                1 <= i <= events@.len(),
                best == first_active(events@.take(i as int)),
            decreases events@.len() - i,
        {
            let ghost next = events@.take(i as int + 1);
            proof {
                assert(next.drop_last() == events@.take(i as int));
                assert(next.last() == events@[i as int]);
            }
            let t = events[i].timestamp_ms;
            if t < best {
                best = t;
            }
            i = i + 1;
        }
        assert(events@.take(events@.len() as int) == events@);
        best
    }

    /// The integer ingredients of intensity, steadiness, fluency and
    /// activity: the number of events, the hours with events, and the
    /// gaps over two seconds out of all gaps.
    pub fn metric_counts(events: &[KeyEvent], hourly: &[usize; 24]) -> (m: MetricCounts)
        ensures
            m.total_keys == events@.len(),
            m.active_hours == active_hours_upto(hourly@, 24),
            m.pauses_over_2s == count_adjacent(events@, is_pause(2000)),
            m.total_intervals == (if events@.len() < 2 { 0 } else { events@.len() - 1 }),
    {
        let mut active: usize = 0;
        let mut h: usize = 0;
        while h < 24
            invariant
                h <= 24,
                active == active_hours_upto(hourly@, h as int),
                active <= h,
            decreases 24 - h,
        {
            if hourly[h] > 0 {
                active = active + 1;
            }
            h = h + 1;
        }
        let (pauses, _d, _r) = Aggregator::count_meta(events, 2000);
        let total_intervals = if events.len() < 2 { 0 } else { events.len() - 1 };
        MetricCounts {
            total_keys: events.len(),
            active_hours: active,
            pauses_over_2s: pauses,
            total_intervals,
        }
    }
}

/// The integer part of a day's statistics; the ratios (percentages,
/// intensity, steadiness, fluency) are derived from these.
pub struct DailyCounts {
    /// `YYYY-MM-DD`.
    pub date: String,
    pub total_keys: usize,
    /// Presses per key.
    pub counts: HashMap<u32, usize>,
    /// The five most pressed keys, most pressed first.
    pub top_keys: Vec<(u32, usize)>,
    /// Gaps over two seconds.
    pub pauses: usize,
    pub deletes: usize,
    pub repeats: usize,
    pub hourly: [usize; 24],
    pub metrics: MetricCounts,
    pub activity_hours: i32,
    pub key_class: KeyClassSummary,
    /// Earliest event time in UTC milliseconds, 0 when there are no events.
    pub first_active_ms: i64,
}

impl Aggregator {
    /// All counts of a day's events in one pass of the individual
    /// aggregations (pause threshold two seconds, top five keys).
    pub fn aggregate_counts(date: String, events: &[KeyEvent]) -> (d: DailyCounts)
        requires
            events@.len() <= i64::MAX,
        ensures
            d.date == date,
            d.total_keys == events@.len(),
            is_count_map(d.counts@, events@),
            is_top_n(d.top_keys@, d.counts@, 5),
            d.pauses == count_adjacent(events@, is_pause(2000)),
            d.deletes == count_where(events@, is_delete()),
            d.repeats == count_adjacent(events@, is_repeat()),
            forall|h: int| 0 <= h < 24 ==> d.hourly[h] == count_hour(events@, h),
            d.metrics.total_keys == events@.len(),
            d.metrics.active_hours == active_hours_upto(d.hourly@, 24),
            d.metrics.pauses_over_2s == d.pauses,
            d.metrics.total_intervals == (if events@.len() < 2 { 0 } else { events@.len() - 1 }),
            d.activity_hours == d.metrics.active_hours,
            d.key_class.game_keys == count_where(events@, is_game()),
            d.key_class.modifier_keys == count_where(events@, is_modifier()),
            d.key_class.text_keys == count_where(events@, is_text()),
            d.first_active_ms == first_active(events@),
    {
        let counts = Aggregator::count_by_key(events);
        let top = Aggregator::top_n(&counts, 5);
        let hourly = Aggregator::hourly_buckets(events);
        let (pauses, deletes, repeats) = Aggregator::count_meta(events, 2000);
        let first = Aggregator::first_active_ms(events);
        let metrics = Aggregator::metric_counts(events, &hourly);
        proof {
            lemma_active_hours_bound(hourly@, 24);
        }
        let key_class = Aggregator::classify_keys(events);
        DailyCounts {
            date,
            total_keys: events.len(),
            counts,
            top_keys: top,
            pauses,
            deletes,
            repeats,
            hourly,
            metrics,
            activity_hours: metrics.active_hours as i32,
            key_class,
            first_active_ms: first,
        }
    }
}

proof fn lemma_active_hours_bound(h: Seq<usize>, k: int)
    requires
        0 <= k,
    ensures
        active_hours_upto(h, k) <= k,
    decreases k,
{
    if k > 0 {
        lemma_active_hours_bound(h, k - 1);
    }
}

/// Events satisfying `p` or `q`.
pub open spec fn either(p: spec_fn(KeyEvent) -> bool, q: spec_fn(KeyEvent) -> bool) -> spec_fn(KeyEvent) -> bool {
    |e: KeyEvent| p(e) || q(e)
}

/// Counts of two predicates that no event satisfies together add up to
/// the count of their union.
pub proof fn lemma_count_disjoint_union(s: Seq<KeyEvent>, p: spec_fn(KeyEvent) -> bool, q: spec_fn(KeyEvent) -> bool)
    requires
        forall|e: KeyEvent| !(#[trigger] p(e) && q(e)),
    ensures
        count_where(s, p) + count_where(s, q) == count_where(s, either(p, q)),
    decreases s.len(),
{
    if s.len() > 0 {
        lemma_count_disjoint_union(s.drop_last(), p, q);
        assert(!(p(s.last()) && q(s.last())));
    }
}

/// Law of key classification: no key is in two classes, so the game,
/// text and function key counts add up to at most the number of events.
pub proof fn law_key_classes_disjoint(s: Seq<KeyEvent>)
    ensures
        count_where(s, is_game()) + count_where(s, is_text()) + count_where(s, is_modifier()) <= s.len(),
{
    lemma_count_disjoint_union(s, is_game(), is_text());
    assert forall|e: KeyEvent| !(#[trigger] either(is_game(), is_text())(e) && is_modifier()(e)) by {}
    lemma_count_disjoint_union(s, either(is_game(), is_text()), is_modifier());
    lemma_count_where_bound(s, either(either(is_game(), is_text()), is_modifier()));
}

/// Law of special-key counting: Backspace, Delete, Enter, Space and the
/// WASD keys are distinct keys, so their counts add up to at most the
/// number of events.
pub proof fn law_special_keys_disjoint(s: Seq<KeyEvent>)
    ensures
        count_where(s, has_code(8)) + count_where(s, has_code(46)) + count_where(s, has_code(13))
            + count_where(s, has_code(32)) + count_where(s, is_wasd()) <= s.len(),
{
    let a = has_code(8);
    let b = has_code(46);
    let c = has_code(13);
    let d = has_code(32);
    let w = is_wasd();
    lemma_count_disjoint_union(s, a, b);
    lemma_count_disjoint_union(s, either(a, b), c);
    lemma_count_disjoint_union(s, either(either(a, b), c), d);
    assert forall|e: KeyEvent| !(#[trigger] either(either(either(a, b), c), d)(e) && w(e)) by {}
    lemma_count_disjoint_union(s, either(either(either(a, b), c), d), w);
    lemma_count_where_bound(s, either(either(either(either(a, b), c), d), w));
}

/// Total of the counts in `s` of the key codes listed in `keys`.
pub open spec fn sum_counts(s: Seq<KeyEvent>, keys: Seq<u32>) -> nat
    decreases keys.len(),
{
    if keys.len() == 0 {
        0
    } else {
        sum_counts(s, keys.drop_last()) + count_code(s, keys.last())
    }
}

/// Total of the counts of a list of `(key, count)` entries.
pub open spec fn entry_total(v: Seq<(u32, usize)>) -> nat
    decreases v.len(),
{
    if v.len() == 0 {
        0
    } else {
        entry_total(v.drop_last()) + v.last().1 as nat
    }
}

/// Number of positions of `keys` holding `c`.
spec fn key_hits(keys: Seq<u32>, c: u32) -> nat
    decreases keys.len(),
{
    if keys.len() == 0 {
        0
    } else {
        key_hits(keys.drop_last(), c) + if keys.last() == c { 1nat } else { 0nat }
    }
}

proof fn lemma_sum_counts_empty(s: Seq<KeyEvent>, keys: Seq<u32>)
    requires
        s.len() == 0,
    ensures
        sum_counts(s, keys) == 0,
    decreases keys.len(),
{
    if keys.len() > 0 {
        lemma_sum_counts_empty(s, keys.drop_last());
    }
}

proof fn lemma_sum_counts_step(s: Seq<KeyEvent>, keys: Seq<u32>)
    requires
        s.len() > 0,
    ensures
        sum_counts(s, keys) == sum_counts(s.drop_last(), keys) + key_hits(keys, s.last().key_code),
    decreases keys.len(),
{
    if keys.len() > 0 {
        lemma_sum_counts_step(s, keys.drop_last());
    }
}

proof fn lemma_key_hits_unique(keys: Seq<u32>, c: u32)
    requires
        keys.no_duplicates(),
    ensures
        key_hits(keys, c) == (if keys.contains(c) { 1nat } else { 0nat }),
    decreases keys.len(),
{
    if keys.len() > 0 {
        let init = keys.drop_last();
        assert(init.no_duplicates()) by {
            assert forall|i: int, j: int| 0 <= i < init.len() && 0 <= j < init.len() && i != j
                implies init[i] != init[j] by {
                assert(init[i] == keys[i] && init[j] == keys[j]);
            }
        }
        lemma_key_hits_unique(init, c);
        let n = keys.len() - 1;
        if keys.last() == c {
            assert(keys[n] == c);
            assert(!init.contains(c)) by {
                if init.contains(c) {
                    let i = choose|i: int| 0 <= i < init.len() && init[i] == c;
                    assert(keys[i] == keys[n]);
                }
            }
        } else {
            assert(keys.contains(c) == init.contains(c)) by {
                if keys.contains(c) {
                    let i = choose|i: int| 0 <= i < keys.len() && keys[i] == c;
                    assert(i != n);
                    assert(init[i] == c);
                }
                if init.contains(c) {
                    let i = choose|i: int| 0 <= i < init.len() && init[i] == c;
                    assert(keys[i] == c);
                }
            }
        }
    }
}

proof fn lemma_sum_counts_total(s: Seq<KeyEvent>, keys: Seq<u32>)
    requires
        keys.no_duplicates(),
        forall|i: int| 0 <= i < s.len() ==> keys.contains(#[trigger] s[i].key_code),
    ensures
        sum_counts(s, keys) == s.len(),
    decreases s.len(),
{
    if s.len() == 0 {
        lemma_sum_counts_empty(s, keys);
    } else {
        let init = s.drop_last();
        assert forall|i: int| 0 <= i < init.len() implies keys.contains(#[trigger] init[i].key_code) by {
            assert(init[i] == s[i]);
        }
        lemma_sum_counts_total(init, keys);
        lemma_sum_counts_step(s, keys);
        assert(keys.contains(s[s.len() - 1].key_code));
        lemma_key_hits_unique(keys, s.last().key_code);
    }
}

proof fn lemma_count_code_pos(s: Seq<KeyEvent>, i: int)
    requires
        0 <= i < s.len(),
    ensures
        count_code(s, s[i].key_code) > 0,
    decreases s.len(),
{
    if i < s.len() - 1 {
        assert(s.drop_last()[i] == s[i]);
        lemma_count_code_pos(s.drop_last(), i);
    }
}

proof fn lemma_entry_total_as_sum(s: Seq<KeyEvent>, v: Seq<(u32, usize)>)
    requires
        forall|i: int| 0 <= i < v.len() ==> #[trigger] v[i].1 == count_code(s, v[i].0),
    ensures
        entry_total(v) == sum_counts(s, v.map_values(|p: (u32, usize)| p.0)),
    decreases v.len(),
{
    let keys = v.map_values(|p: (u32, usize)| p.0);
    if v.len() > 0 {
        let init = v.drop_last();
        assert forall|i: int| 0 <= i < init.len() implies #[trigger] init[i].1 == count_code(s, init[i].0) by {
            assert(init[i] == v[i]);
        }
        lemma_entry_total_as_sum(s, init);
        assert(keys.drop_last() == init.map_values(|p: (u32, usize)| p.0));
        assert(v[v.len() - 1].1 == count_code(s, v[v.len() - 1].0));
    }
}

/// Law of per-key counting: however a day's count map is listed, its
/// counts add up to the number of events, so the keys' shares of the day
/// add up to the whole.
pub proof fn law_counts_sum_to_total(s: Seq<KeyEvent>, m: Map<u32, usize>, v: Seq<(u32, usize)>)
    requires
        is_count_map(m, s),
        lists_entries(v, m),
    ensures
        entry_total(v) == s.len(),
{
    let keys = v.map_values(|p: (u32, usize)| p.0);
    assert forall|i: int| 0 <= i < v.len() implies #[trigger] v[i].1 == count_code(s, v[i].0) by {
        assert(m.contains_key(v[i].0));
    }
    lemma_entry_total_as_sum(s, v);
    assert(keys.no_duplicates()) by {
        assert forall|i: int, j: int| 0 <= i < keys.len() && 0 <= j < keys.len() && i != j
            implies keys[i] != keys[j] by {
            assert(v[i].0 != v[j].0);
        }
    }
    assert forall|i: int| 0 <= i < s.len() implies keys.contains(#[trigger] s[i].key_code) by {
        let c = s[i].key_code;
        lemma_count_code_pos(s, i);
        assert(m.contains_key(c));
        let j = choose|j: int| 0 <= j < v.len() && v[j].0 == c;
        assert(keys[j] == c);
    }
    lemma_sum_counts_total(s, keys);
}

/// Events whose timestamp `chrono` can represent.
pub open spec fn in_range() -> spec_fn(KeyEvent) -> bool {
    |e: KeyEvent| in_chrono_range(e.timestamp_ms as int)
}

/// Total of the first `k` hourly counts of `s`.
pub open spec fn sum_hours(s: Seq<KeyEvent>, k: int) -> nat
    decreases k,
{
    if k <= 0 {
        0
    } else {
        sum_hours(s, k - 1) + count_hour(s, k - 1)
    }
}

proof fn lemma_sum_hours_step(s: Seq<KeyEvent>, k: int)
    requires
        s.len() > 0,
        0 <= k,
    ensures
        sum_hours(s, k) == sum_hours(s.drop_last(), k) + ({
            let ms = s.last().timestamp_ms as int;
            if in_chrono_range(ms) && hour_of(ms) < k { 1nat } else { 0nat }
        }),
    decreases k,
{
    let ms = s.last().timestamp_ms as int;
    assert(0 <= hour_of(ms));
    if k > 0 {
        lemma_sum_hours_step(s, k - 1);
    }
}

/// Law of the hourly distribution: the 24 hourly counts add up to the
/// number of events whose time `chrono` represents, which is at most the
/// number of events.
pub proof fn law_hourly_sum(s: Seq<KeyEvent>)
    ensures
        sum_hours(s, 24) == count_where(s, in_range()),
        count_where(s, in_range()) <= s.len(),
    decreases s.len(),
{
    lemma_count_where_bound(s, in_range());
    if s.len() == 0 {
        assert(sum_hours(s, 24) == 0) by {
            assert forall|k: int| 0 <= k <= 24 implies #[trigger] sum_hours(s, k) == 0 by {
                lemma_sum_hours_zero(s, k);
            }
        }
    } else {
        law_hourly_sum(s.drop_last());
        lemma_sum_hours_step(s, 24);
        let ms = s.last().timestamp_ms as int;
        assert(hour_of(ms) < 24);
    }
}

proof fn lemma_sum_hours_zero(s: Seq<KeyEvent>, k: int)
    requires
        s.len() == 0,
    ensures
        sum_hours(s, k) == 0,
    decreases k,
{
    if k > 0 {
        lemma_sum_hours_zero(s, k - 1);
    }
}

/// Number of timestamps in `ts` whose hour bucket counted from `start` is `h`.
pub open spec fn count_bucket(ts: Seq<i64>, start: int, h: int) -> nat
    decreases ts.len(),
{
    if ts.len() == 0 {
        0
    } else {
        count_bucket(ts.drop_last(), start, h)
            + if spec_hour_bucket(start, ts.last() as int) == h { 1nat } else { 0nat }
    }
}

proof fn lemma_count_bucket_bound(ts: Seq<i64>, start: int, h: int)
    ensures
        count_bucket(ts, start, h) <= ts.len(),
    decreases ts.len(),
{
    if ts.len() > 0 {
        lemma_count_bucket_bound(ts.drop_last(), start, h);
    }
}

/// Key presses per hour of a window starting at `start`, from their
/// timestamps: each timestamp counts in its hour bucket.
pub fn tally_hours(start: i64, ts: &[i64]) -> (v: Vec<i64>)
    requires
        ts@.len() <= i64::MAX,
    ensures
        v@.len() == 24,
        forall|h: int| 0 <= h < 24 ==> v@[h] == count_bucket(ts@, start as int, h),
{
    let mut v: Vec<i64> = vec![0i64; 24];
    let mut i: usize = 0;
    while i < ts.len()
        invariant
            i <= ts@.len(),
            ts@.len() <= i64::MAX,
            v@.len() == 24,
            forall|h: int| 0 <= h < 24 ==> v@[h] == count_bucket(ts@.take(i as int), start as int, h),
        decreases ts@.len() - i,
    {
        let ghost prev = ts@.take(i as int);
        let ghost next = ts@.take(i as int + 1);
        proof {
            assert(next.drop_last() == prev);
            assert(next.last() == ts@[i as int]);
        }
        let h = hour_bucket(start, ts[i]);
        proof {
            lemma_count_bucket_bound(prev, start as int, h as int);
        }
        let c = v[h];
        v.set(h, c + 1);
        i = i + 1;
    }
    assert(ts@.take(ts@.len() as int) == ts@);
    v
}

/// Total of the first `k` hour buckets.
pub open spec fn sum_buckets(ts: Seq<i64>, start: int, k: int) -> nat
    decreases k,
{
    if k <= 0 {
        0
    } else {
        sum_buckets(ts, start, k - 1) + count_bucket(ts, start, k - 1)
    }
}

proof fn lemma_sum_buckets_step(ts: Seq<i64>, start: int, k: int)
    requires
        ts.len() > 0,
        0 <= k,
    ensures
        sum_buckets(ts, start, k) == sum_buckets(ts.drop_last(), start, k)
            + if spec_hour_bucket(start, ts.last() as int) < k { 1nat } else { 0nat },
    decreases k,
{
    if k > 0 {
        lemma_sum_buckets_step(ts, start, k - 1);
    }
}

proof fn lemma_sum_buckets_zero(ts: Seq<i64>, start: int, k: int)
    requires
        ts.len() == 0,
    ensures
        sum_buckets(ts, start, k) == 0,
    decreases k,
{
    if k > 0 {
        lemma_sum_buckets_zero(ts, start, k - 1);
    }
}

/// Law of the hourly tally: every timestamp lands in exactly one of the 24
/// buckets, so the buckets add up to the number of key presses counted in
/// the window.
pub proof fn law_tally_adds_up(ts: Seq<i64>, start: int)
    ensures
        sum_buckets(ts, start, 24) == ts.len(),
    decreases ts.len(),
{
    if ts.len() == 0 {
        lemma_sum_buckets_zero(ts, start, 24);
    } else {
        law_tally_adds_up(ts.drop_last(), start);
        lemma_sum_buckets_step(ts, start, 24);
        let b = spec_hour_bucket(start, ts.last() as int);
        assert(0 <= b < 24);
    }
}

proof fn lemma_count_where_remove(s: Seq<KeyEvent>, p: spec_fn(KeyEvent) -> bool, i: int)
    requires
        0 <= i < s.len(),
    ensures
        count_where(s, p) == count_where(s.remove(i), p) + if p(s[i]) { 1nat } else { 0nat },
    decreases s.len(),
{
    if i == s.len() - 1 {
        assert(s.remove(i) =~= s.drop_last());
    } else {
        lemma_count_where_remove(s.drop_last(), p, i);
        assert(s.remove(i).drop_last() =~= s.drop_last().remove(i));
        assert(s.remove(i).last() == s.last());
    }
}

/// The count of events satisfying `p` does not depend on their order.
pub proof fn lemma_count_where_reordered(s1: Seq<KeyEvent>, s2: Seq<KeyEvent>, p: spec_fn(KeyEvent) -> bool)
    requires
        s1.to_multiset() == s2.to_multiset(),
    ensures
        count_where(s1, p) == count_where(s2, p),
    decreases s1.len(),
{
    broadcast use vstd::seq_lib::group_to_multiset_ensures;
    if s1.len() == 0 {
        assert(s2.len() == s2.to_multiset().len());
        assert(s2.len() == 0);
    } else {
        let x = s1.last();
        assert(s1.to_multiset().count(x) > 0) by {
            assert(s1.contains(x)) by { assert(s1[s1.len() - 1] == x); }
        }
        assert(s2.contains(x));
        let j = choose|j: int| 0 <= j < s2.len() && s2[j] == x;
        assert(s1.remove(s1.len() - 1) =~= s1.drop_last());
        assert(s1.drop_last().to_multiset() == s2.remove(j).to_multiset());
        lemma_count_where_reordered(s1.drop_last(), s2.remove(j), p);
        lemma_count_where_remove(s2, p, j);
    }
}

/// Law of key classification: the three class counts do not depend on
/// the order of the events.
pub proof fn law_key_classes_order_free(s1: Seq<KeyEvent>, s2: Seq<KeyEvent>)
    requires
        s1.to_multiset() == s2.to_multiset(),
    ensures
        count_where(s1, is_game()) == count_where(s2, is_game()),
        count_where(s1, is_modifier()) == count_where(s2, is_modifier()),
        count_where(s1, is_text()) == count_where(s2, is_text()),
{
    lemma_count_where_reordered(s1, s2, is_game());
    lemma_count_where_reordered(s1, s2, is_modifier());
    lemma_count_where_reordered(s1, s2, is_text());
}

} // verus!
