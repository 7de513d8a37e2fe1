//! Properties of sequences of calls on the store.
use crate::load_tester::{after_bloat, counting_run};
use vstd::prelude::*;

verus! {

/// The contents after `bloat(counts[0]), ..., bloat(counts[k - 1])` on a
/// store holding `s`.
pub open spec fn replay(s: Seq<u64>, counts: Seq<u64>) -> Seq<u64>
    decreases counts.len(),
{
    if counts.len() == 0 {
        s
    } else {
        after_bloat(replay(s, counts.drop_last()), counts.last())
    }
}

/// The sum of all counts.
pub open spec fn total(counts: Seq<u64>) -> int
    decreases counts.len(),
{
    if counts.len() == 0 {
        0
    } else {
        total(counts.drop_last()) + counts.last()
    }
}

/// After a sequence of `bloat` calls the store holds what it held before,
/// followed by the runs `1..=c` of every call in turn, each restarting at 1.
pub proof fn lemma_per_call_restart(s: Seq<u64>, counts: Seq<u64>)
    ensures
        replay(s, counts) == s + counts.map_values(|c: u64| counting_run(c as nat)).flatten(),
    decreases counts.len(),
{
    let f = |c: u64| counting_run(c as nat);
    if counts.len() == 0 {
        assert(counts.map_values(f).flatten() =~= Seq::<u64>::empty());
        assert(s + Seq::<u64>::empty() =~= s);
    } else {
        let init = counts.drop_last();
        lemma_per_call_restart(s, init);
        assert(counts =~= init.push(counts.last()));
        init.lemma_push_map_commute(f, counts.last());
        init.map_values(f).lemma_flatten_push(f(counts.last()));
        assert(replay(s, counts) =~= s + counts.map_values(f).flatten());
    }
}

/// The length of the contents grows by the sum of the counts, and never
/// decreases from one call to the next.
pub proof fn lemma_monotonic_growth(s: Seq<u64>, counts: Seq<u64>, j: int)
    requires
        0 <= j <= counts.len(),
    ensures
        replay(s, counts).len() == s.len() + total(counts),
        replay(s, counts.take(j)).len() <= replay(s, counts).len(),
    decreases counts.len(),
{
    if counts.len() > 0 {
        let init = counts.drop_last();
        if j == counts.len() {
            assert(counts.take(j) =~= counts);
            lemma_monotonic_growth(s, init, 0);
        } else {
            assert(counts.take(j) =~= init.take(j));
            lemma_monotonic_growth(s, init, j);
        }
    }
}

/// A call of `bloat(0)` leaves the contents as they were.
pub proof fn lemma_zero_no_op(s: Seq<u64>)
    ensures
        after_bloat(s, 0) == s,
{
    assert(after_bloat(s, 0) =~= s);
}

} // verus!
