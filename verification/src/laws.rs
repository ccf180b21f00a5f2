//! Laws of serialized mutation.
//!
//! The store's writer lock admits one writer at a time, so a run of
//! concurrent `update` calls is observed as some serialization: a sequence
//! of whole-object transitions applied one after another. The laws here
//! state what any such serialization yields — no update and no appended
//! character is ever lost — together with the executable transitions the
//! scenarios apply.

use vstd::prelude::*;
use vstd::string::StringExecFns;
use crate::state::AppState;

verus! {

/// The state after one increment of the counter; the label is untouched.
pub open spec fn spec_increment(s: AppState) -> AppState {
    AppState { count: (s.count + 1) as u64, ..s }
}

/// The state after `n` serialized increments.
pub open spec fn spec_increment_n(s: AppState, n: nat) -> AppState
    decreases n,
{
    if n == 0 {
        s
    } else {
        spec_increment(spec_increment_n(s, (n - 1) as nat))
    }
}

/// One increment of the counter: the whole-object mutation each competing
/// writer applies under `update` in the counting scenario.
pub fn increment_count(s: AppState) -> (r: AppState)
    requires
        s.count < u64::MAX,
    ensures
        r == spec_increment(s),
{
    AppState { count: s.count + 1, ..s }
}

/// Serialized writers lose no update: when `n` `update` calls each
/// increment the counter by one, whatever order the writer lock serialized
/// them in, the final counter equals the initial value plus `n` and the
/// label is exactly as it was.
pub proof fn lemma_serialized_increments(s: AppState, n: nat)
    requires
        s.count + n <= u64::MAX,
    ensures
        spec_increment_n(s, n).count == s.count + n,
        spec_increment_n(s, n).label == s.label,
    decreases n,
{
    if n > 0 {
        lemma_serialized_increments(s, (n - 1) as nat);
    }
}

/// Append `suffix` to the label: the whole-object mutation each competing
/// writer applies under `update` in the interleaved-append scenario.
pub fn append_label(s: AppState, suffix: &str) -> (r: AppState)
    ensures
        r.label@ == s.label@ + suffix@,
        r.count == s.count,
{
    let mut next = s;
    next.label.append(suffix);
    next
}

/// The label after a serialized run of appends, one suffix per writer
/// turn, in the order the writer lock serialized the turns.
pub open spec fn appended(l: Seq<char>, suffixes: Seq<Seq<char>>) -> Seq<char>
    decreases suffixes.len(),
{
    if suffixes.len() == 0 {
        l
    } else {
        appended(l + suffixes[0], suffixes.drop_first())
    }
}

/// The total number of characters in a run of suffixes.
pub open spec fn total_len(suffixes: Seq<Seq<char>>) -> nat
    decreases suffixes.len(),
{
    if suffixes.len() == 0 {
        0
    } else {
        suffixes[0].len() + total_len(suffixes.drop_first())
    }
}

/// Serialized appends lose nothing: the final label is the initial label
/// followed by every appended suffix, in serialization order.
pub proof fn lemma_appends_lose_nothing(l: Seq<char>, suffixes: Seq<Seq<char>>)
    ensures
        appended(l, suffixes) == l + suffixes.flatten(),
    decreases suffixes.len(),
{
    if suffixes.len() == 0 {
        assert(l + suffixes.flatten() =~= l);
    } else {
        lemma_appends_lose_nothing(l + suffixes[0], suffixes.drop_first());
        assert((l + suffixes[0]) + suffixes.drop_first().flatten() =~= l + (suffixes[0]
            + suffixes.drop_first().flatten()));
        assert(suffixes.first() == suffixes[0]);
    }
}

/// The length of a label after a serialized run of appends: the initial
/// length plus the total length appended.
pub proof fn lemma_appended_length(l: Seq<char>, suffixes: Seq<Seq<char>>)
    ensures
        appended(l, suffixes).len() == l.len() + total_len(suffixes),
    decreases suffixes.len(),
{
    if suffixes.len() > 0 {
        lemma_appended_length(l + suffixes[0], suffixes.drop_first());
    }
}

/// `c` is one possible serialization of two writers' turns `a` and `b`:
/// it interleaves the two runs, keeping each writer's own order.
pub open spec fn is_interleaving(
    a: Seq<Seq<char>>,
    b: Seq<Seq<char>>,
    c: Seq<Seq<char>>,
) -> bool
    decreases c.len(),
{
    if c.len() == 0 {
        a.len() == 0 && b.len() == 0
    } else {
        ||| (a.len() > 0 && c[0] == a[0] && is_interleaving(a.drop_first(), b, c.drop_first()))
        ||| (b.len() > 0 && c[0] == b[0] && is_interleaving(a, b.drop_first(), c.drop_first()))
    }
}

/// Two concurrent appending writers lose no character: whatever
/// serialization the writer lock imposes on their turns, the final label
/// length is the initial length plus everything both writers appended.
pub proof fn lemma_interleaved_appends(
    l: Seq<char>,
    a: Seq<Seq<char>>,
    b: Seq<Seq<char>>,
    c: Seq<Seq<char>>,
)
    requires
        is_interleaving(a, b, c),
    ensures
        appended(l, c).len() == l.len() + total_len(a) + total_len(b),
    decreases c.len(),
{
    if c.len() == 0 {
    } else if a.len() > 0 && c[0] == a[0] && is_interleaving(a.drop_first(), b, c.drop_first()) {
        lemma_interleaved_appends(l + c[0], a.drop_first(), b, c.drop_first());
    } else {
        lemma_interleaved_appends(l + c[0], a, b.drop_first(), c.drop_first());
    }
}

} // verus!
