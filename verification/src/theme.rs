//! Theme-word and mood derivation from a day's keyboard behaviour.

use vstd::prelude::*;
use std::collections::HashMap;
use vstd::string::StringExecFns;
use crate::aggregator::{
    count_where, has_code, is_wasd, lists_entries, map_entries, Aggregator, SpecialKeyCounts,
};
use crate::event::KeyEvent;
use crate::text::push_char;

verus! {

/// Whether a key code is printable ASCII (32..=126).
pub open spec fn spec_is_printable(code: u32) -> bool {
    32 <= code <= 126
}

/// Whether a key code is printable ASCII (32..=126).
pub fn is_printable_ascii(code: u32) -> (b: bool)
    ensures
        b == spec_is_printable(code),
{
    32 <= code && code <= 126
}

/// `(k1, v1)` ranks above `(k2, v2)`: more presses, or as many presses
/// and a smaller key code.
pub open spec fn ranks_above(k1: u32, v1: usize, k2: u32, v2: usize) -> bool {
    v1 > v2 || (v1 == v2 && k1 < k2)
}

/// `k` is the top-ranked printable key of `m`.
pub open spec fn is_theme_key(m: Map<u32, usize>, k: u32) -> bool {
    &&& m.contains_key(k)
    &&& spec_is_printable(k)
    &&& forall|k2: u32|
        #[trigger] m.contains_key(k2) && spec_is_printable(k2) && k2 != k ==> ranks_above(k, m[k], k2, m[k2])
}

/// The single-letter theme word: the most pressed printable key (ties go
/// to the smaller key code), or the empty string when there is none.
pub open spec fn spec_theme_word(m: Map<u32, usize>) -> Seq<char> {
    if exists|k: u32| is_theme_key(m, k) {
        seq![((choose|k: u32| is_theme_key(m, k)) as u8) as char]
    } else {
        Seq::empty()
    }
}

proof fn lemma_theme_key_unique(m: Map<u32, usize>, a: u32, b: u32)
    requires
        is_theme_key(m, a),
        is_theme_key(m, b),
    ensures
        a == b,
{
    if a != b {
        assert(ranks_above(a, m[a], b, m[b]));
        assert(ranks_above(b, m[b], a, m[a]));
    }
}

/// The most pressed printable key as a one-character string (ties go to
/// the smaller key code); empty when no printable key was pressed.
pub fn extract_theme_word(counts: &HashMap<u32, usize>) -> (w: String)
    ensures
        w@ == spec_theme_word(counts@),
        w@.len() == 0 <==> (forall|k: u32| #[trigger] counts@.contains_key(k) ==> !spec_is_printable(k)),
{
    let e = map_entries(counts);
    let ghost m = counts@;
    let mut best: Option<(u32, usize)> = None;
    let mut i: usize = 0;
    while i < e.len()
        invariant
            i <= e@.len(),
            lists_entries(e@, m),
            m == counts@,
            match best {
                Some((k, v)) => {
                    &&& m.contains_key(k) && m[k] == v && spec_is_printable(k)
                    &&& exists|j: int| 0 <= j < i && e@[j].0 == k
                    &&& forall|j: int| 0 <= j < i && spec_is_printable(#[trigger] e@[j].0) && e@[j].0 != k
                        ==> ranks_above(k, v, e@[j].0, e@[j].1)
                },
                None => forall|j: int| 0 <= j < i ==> !spec_is_printable(#[trigger] e@[j].0),
            },
        decreases e@.len() - i,
    {
        let (k, v) = e[i];
        assert(e@[i as int].0 == k && e@[i as int].1 == v);
        assert(m.contains_key(e@[i as int].0) && m[e@[i as int].0] == e@[i as int].1);
        if is_printable_ascii(k) {
            match best {
                None => {
                    best = Some((k, v));
                },
                Some((bk, bv)) => {
                    if v > bv || (v == bv && k < bk) {
                        best = Some((k, v));
                        proof {
                            assert forall|j: int| 0 <= j < i + 1 && spec_is_printable(#[trigger] e@[j].0) && e@[j].0 != k
                                implies ranks_above(k, v, e@[j].0, e@[j].1) by {
                                if j < i && e@[j].0 != bk {
                                    assert(ranks_above(bk, bv, e@[j].0, e@[j].1));
                                } else if j < i {
                                    assert(e@[j].1 == bv);
                                }
                            }
                        }
                    } else {
                        proof {
                            let jb = choose|j: int| 0 <= j < i && e@[j].0 == bk;
                            assert(k != bk);
                            assert(ranks_above(bk, bv, k, v));
                        }
                    }
                },
            }
        }
        i = i + 1;
    }
    match best {
        None => {
            proof {
                assert forall|k: u32| #[trigger] m.contains_key(k) implies !spec_is_printable(k) by {
                    let j = choose|j: int| 0 <= j < e@.len() && e@[j].0 == k;
                }
                assert(!exists|k: u32| is_theme_key(m, k));
            }
            String::new()
        },
        Some((bk, bv)) => {
            proof {
                assert forall|k2: u32| #[trigger] m.contains_key(k2) && spec_is_printable(k2) && k2 != bk
                    implies ranks_above(bk, m[bk], k2, m[k2]) by {
                    let j = choose|j: int| 0 <= j < e@.len() && e@[j].0 == k2;
                    assert(e@[j].1 == m[k2]);
                }
                assert(is_theme_key(m, bk));
                let c = choose|k: u32| is_theme_key(m, k);
                lemma_theme_key_unique(m, c, bk);
            }
            let mut s = String::new();
            let ch = (bk as u8) as char;
            push_char(&mut s, ch);
            s
        },
    }
}

/// The four behaviour dimensions, each already decided against its
/// threshold: intensity above 2000 keys per active hour, steadiness
/// (coefficient of variation) at most 0.8, fluency (share of pauses over
/// two seconds) below 0.10, and more than four active hours.
#[derive(Debug, Clone, Copy, PartialEq, Eq, Structural)]
pub struct BehaviorDims {
    pub fast: bool,
    pub smooth: bool,
    pub fluent: bool,
    pub active: bool,
}

/// The theme of the sixteen dimension combinations.
pub open spec fn spec_dims_theme(d: BehaviorDims) -> Seq<char> {
    if d.fast {
        if d.smooth {
            if d.fluent {
                if d.active { "Flow"@ } else { "Sprint"@ }
            } else {
                if d.active { "Forge"@ } else { "Flash"@ }
            }
        } else {
            if d.fluent {
                if d.active { "Rush"@ } else { "Burst"@ }
            } else {
                if d.active { "Turbulence"@ } else { "Shards"@ }
            }
        }
    } else {
        if d.smooth {
            if d.fluent {
                if d.active { "Tide"@ } else { "Whisper"@ }
            } else {
                if d.active { "Trek"@ } else { "Pause"@ }
            }
        } else {
            if d.fluent {
                if d.active { "Drift"@ } else { "Wander"@ }
            } else {
                if d.active { "Spiral"@ } else { "Stillness"@ }
            }
        }
    }
}

/// The default mood of the sixteen dimension combinations.
pub open spec fn spec_dims_mood(d: BehaviorDims) -> Seq<char> {
    if d.fast {
        if d.smooth {
            if d.fluent {
                if d.active { "energetic"@ } else { "focused"@ }
            } else {
                if d.active { "determined"@ } else { "hurried"@ }
            }
        } else {
            if d.fluent {
                if d.active { "excited"@ } else { "restless"@ }
            } else {
                if d.active { "chaotic"@ } else { "frustrated"@ }
            }
        }
    } else {
        if d.smooth {
            if d.fluent {
                if d.active { "calm"@ } else { "peaceful"@ }
            } else {
                if d.active { "thoughtful"@ } else { "tired"@ }
            }
        } else {
            if d.fluent {
                if d.active { "playful"@ } else { "distracted"@ }
            } else {
                if d.active { "anxious"@ } else { "melancholy"@ }
            }
        }
    }
}

/// The theme word of a span of events: the behaviour rules, in order of
/// precedence, then the dimension table.  `total` is the number of events
/// (at least 1), and the shares are compared exactly:
/// Backspace + Delete at least 12% gives REWRITE, Enter above 8% BREAK,
/// Space above 30% PAUSE, W/A/S/D above 25% CONTROL.
pub open spec fn spec_behavior_theme(s: Seq<KeyEvent>, d: BehaviorDims) -> Seq<char> {
    let total: int = if s.len() == 0 { 1 } else { s.len() as int };
    let del = count_where(s, has_code(8)) + count_where(s, has_code(46));
    if 100 * del >= 12 * total {
        "REWRITE"@
    } else if 100 * count_where(s, has_code(13)) > 8 * total {
        "BREAK"@
    } else if 100 * count_where(s, has_code(32)) > 30 * total {
        "PAUSE"@
    } else if 100 * count_where(s, is_wasd()) > 25 * total {
        "CONTROL"@
    } else {
        spec_dims_theme(d)
    }
}

fn dims_theme(d: BehaviorDims) -> (t: &'static str)
    ensures
        t@ == spec_dims_theme(d),
{
    if d.fast {
        if d.smooth {
            if d.fluent {
                if d.active { "Flow" } else { "Sprint" }
            } else {
                if d.active { "Forge" } else { "Flash" }
            }
        } else {
            if d.fluent {
                if d.active { "Rush" } else { "Burst" }
            } else {
                if d.active { "Turbulence" } else { "Shards" }
            }
        }
    } else {
        if d.smooth {
            if d.fluent {
                if d.active { "Tide" } else { "Whisper" }
            } else {
                if d.active { "Trek" } else { "Pause" }
            }
        } else {
            if d.fluent {
                if d.active { "Drift" } else { "Wander" }
            } else {
                if d.active { "Spiral" } else { "Stillness" }
            }
        }
    }
}

/// The theme word of a span of events (see [`spec_behavior_theme`]).
pub fn determine_theme_from_behavior(events: &[KeyEvent], dims: BehaviorDims) -> (t: String)
    ensures
        t@ == spec_behavior_theme(events@, dims),
{
    let c: SpecialKeyCounts = Aggregator::count_special_keys(events);
    let total: u128 = if events.len() == 0 { 1 } else { events.len() as u128 };
    let del: u128 = c.backspace_count as u128 + c.delete_count as u128;
    if 100 * del >= 12 * total {
        String::from_str("REWRITE")
    } else if 100 * (c.enter_count as u128) > 8 * total {
        String::from_str("BREAK")
    } else if 100 * (c.space_count as u128) > 30 * total {
        String::from_str("PAUSE")
    } else if 100 * (c.wasd_count as u128) > 25 * total {
        String::from_str("CONTROL")
    } else {
        String::from_str(dims_theme(dims))
    }
}

/// The mood inferred from the behaviour dimensions when none was given.
pub fn infer_mood_from_behavior(dims: BehaviorDims) -> (m: &'static str)
    ensures
        m@ == spec_dims_mood(dims),
{
    if dims.fast {
        if dims.smooth {
            if dims.fluent {
                if dims.active { "energetic" } else { "focused" }
            } else {
                if dims.active { "determined" } else { "hurried" }
            }
        } else {
            if dims.fluent {
                if dims.active { "excited" } else { "restless" }
            } else {
                if dims.active { "chaotic" } else { "frustrated" }
            }
        }
    } else {
        if dims.smooth {
            if dims.fluent {
                if dims.active { "calm" } else { "peaceful" }
            } else {
                if dims.active { "thoughtful" } else { "tired" }
            }
        } else {
            if dims.fluent {
                if dims.active { "playful" } else { "distracted" }
            } else {
                if dims.active { "anxious" } else { "melancholy" }
            }
        }
    }
}

/// Law of the theme rules, stated over the shares of the events (`n` is
/// the number of events, at least 1): Backspace + Delete at 12% or more
/// gives REWRITE; below that, Enter above 8% gives BREAK; below both, Space
/// above 30% gives PAUSE whatever the W/A/S/D share; below all three,
/// W/A/S/D above 25% gives CONTROL; otherwise the dimension table decides.
pub proof fn law_behavior_theme_precedence(s: Seq<KeyEvent>, d: BehaviorDims)
    ensures
        ({
            let n: int = if s.len() == 0 { 1 } else { s.len() as int };
            let rewrite = 100 * (count_where(s, has_code(8)) + count_where(s, has_code(46))) >= 12 * n;
            let enter = 100 * count_where(s, has_code(13)) > 8 * n;
            let space = 100 * count_where(s, has_code(32)) > 30 * n;
            let wasd = 100 * count_where(s, is_wasd()) > 25 * n;
            &&& rewrite ==> spec_behavior_theme(s, d) == "REWRITE"@
            &&& !rewrite && enter ==> spec_behavior_theme(s, d) == "BREAK"@
            &&& !rewrite && !enter && space ==> spec_behavior_theme(s, d) == "PAUSE"@
            &&& !rewrite && !enter && !space && wasd ==> spec_behavior_theme(s, d) == "CONTROL"@
            &&& !rewrite && !enter && !space && !wasd ==> spec_behavior_theme(s, d) == spec_dims_theme(d)
        }),
{
}

/// Law of the theme table: the theme word of each of the sixteen
/// combinations of the four dimensions.
pub proof fn law_dims_theme_table(d: BehaviorDims)
    ensures
        d.fast && d.smooth && d.fluent && d.active ==> spec_dims_theme(d) == "Flow"@,
        d.fast && d.smooth && d.fluent && !d.active ==> spec_dims_theme(d) == "Sprint"@,
        d.fast && d.smooth && !d.fluent && d.active ==> spec_dims_theme(d) == "Forge"@,
        d.fast && d.smooth && !d.fluent && !d.active ==> spec_dims_theme(d) == "Flash"@,
        d.fast && !d.smooth && d.fluent && d.active ==> spec_dims_theme(d) == "Rush"@,
        d.fast && !d.smooth && d.fluent && !d.active ==> spec_dims_theme(d) == "Burst"@,
        d.fast && !d.smooth && !d.fluent && d.active ==> spec_dims_theme(d) == "Turbulence"@,
        d.fast && !d.smooth && !d.fluent && !d.active ==> spec_dims_theme(d) == "Shards"@,
        !d.fast && d.smooth && d.fluent && d.active ==> spec_dims_theme(d) == "Tide"@,
        !d.fast && d.smooth && d.fluent && !d.active ==> spec_dims_theme(d) == "Whisper"@,
        !d.fast && d.smooth && !d.fluent && d.active ==> spec_dims_theme(d) == "Trek"@,
        !d.fast && d.smooth && !d.fluent && !d.active ==> spec_dims_theme(d) == "Pause"@,
        !d.fast && !d.smooth && d.fluent && d.active ==> spec_dims_theme(d) == "Drift"@,
        !d.fast && !d.smooth && d.fluent && !d.active ==> spec_dims_theme(d) == "Wander"@,
        !d.fast && !d.smooth && !d.fluent && d.active ==> spec_dims_theme(d) == "Spiral"@,
        !d.fast && !d.smooth && !d.fluent && !d.active ==> spec_dims_theme(d) == "Stillness"@,
{
}

/// Law of the mood table: the default mood of each of the sixteen
/// combinations of the four dimensions.
pub proof fn law_dims_mood_table(d: BehaviorDims)
    ensures
        d.fast && d.smooth && d.fluent && d.active ==> spec_dims_mood(d) == "energetic"@,
        d.fast && d.smooth && d.fluent && !d.active ==> spec_dims_mood(d) == "focused"@,
        d.fast && d.smooth && !d.fluent && d.active ==> spec_dims_mood(d) == "determined"@,
        d.fast && d.smooth && !d.fluent && !d.active ==> spec_dims_mood(d) == "hurried"@,
        d.fast && !d.smooth && d.fluent && d.active ==> spec_dims_mood(d) == "excited"@,
        d.fast && !d.smooth && d.fluent && !d.active ==> spec_dims_mood(d) == "restless"@,
        d.fast && !d.smooth && !d.fluent && d.active ==> spec_dims_mood(d) == "chaotic"@,
        d.fast && !d.smooth && !d.fluent && !d.active ==> spec_dims_mood(d) == "frustrated"@,
        !d.fast && d.smooth && d.fluent && d.active ==> spec_dims_mood(d) == "calm"@,
        !d.fast && d.smooth && d.fluent && !d.active ==> spec_dims_mood(d) == "peaceful"@,
        !d.fast && d.smooth && !d.fluent && d.active ==> spec_dims_mood(d) == "thoughtful"@,
        !d.fast && d.smooth && !d.fluent && !d.active ==> spec_dims_mood(d) == "tired"@,
        !d.fast && !d.smooth && d.fluent && d.active ==> spec_dims_mood(d) == "playful"@,
        !d.fast && !d.smooth && d.fluent && !d.active ==> spec_dims_mood(d) == "distracted"@,
        !d.fast && !d.smooth && !d.fluent && d.active ==> spec_dims_mood(d) == "anxious"@,
        !d.fast && !d.smooth && !d.fluent && !d.active ==> spec_dims_mood(d) == "melancholy"@,
{
}

} // verus!
