//! Laws of the rising-edge rule.
//!
//! These proof functions state, over whole scripts of samples, what the
//! detector's per-tick rule adds up to: exactly one activation per maximal
//! run of chord-matching samples, no activations on supersets or subsets of
//! the chord, insensitivity to the order keys are reported in, and re-arming
//! after a release.

use vstd::prelude::*;

use crate::detector::edge_seq;
use crate::detector::is_rising_edge;
use crate::detector::prev_before;
use crate::keys::key_set;
use crate::keys::same_keys;

verus! {

/// Whether tick `i` of a script is the start of a maximal run of samples
/// whose key set equals the chord — the previous sample, or the empty
/// initial state when `i` is 0, does not match.
pub open spec fn starts_match_run(chord: Seq<u64>, samples: Seq<Seq<u64>>, i: int) -> bool {
    same_keys(samples[i], chord) && (i == 0 || !same_keys(samples[i - 1], chord))
}

/// How many entries of a sequence of tick results are true.
pub open spec fn count_true(s: Seq<bool>) -> nat
    decreases s.len(),
{
    if s.len() == 0 {
        0
    } else {
        (if s.last() {
            1nat
        } else {
            0nat
        }) + count_true(s.drop_last())
    }
}

/// A tick is a rising edge exactly when the detector is armed — the
/// remembered sample does not match the chord — and the fresh sample does.
pub proof fn lemma_edge_iff_armed_and_match(chord: Seq<u64>, prev: Seq<u64>, now: Seq<u64>)
    ensures
        is_rising_edge(chord, prev, now) == (same_keys(now, chord) && !same_keys(prev, chord)),
{
}

/// **Rising-edge uniqueness.**  Starting from the empty initial sample, tick
/// `i` reports true exactly when sample `i` starts a maximal run of
/// chord-matching samples; hence the number of ticks reporting true equals
/// the number of such runs.
pub proof fn lemma_rising_edge_uniqueness(chord: Seq<u64>, samples: Seq<Seq<u64>>)
    requires
        chord.len() > 0,
    ensures
        forall|i: int|
            0 <= i < samples.len() ==> edge_seq(chord, Seq::<u64>::empty(), samples)[i]
                == starts_match_run(chord, samples, i),
        count_true(edge_seq(chord, Seq::<u64>::empty(), samples)) == count_true(
            Seq::new(samples.len(), |i: int| starts_match_run(chord, samples, i)),
        ),
{
    let empty = Seq::<u64>::empty();
    assert forall|i: int| 0 <= i < samples.len() implies edge_seq(chord, empty, samples)[i]
        == starts_match_run(chord, samples, i) by {
        if i == 0 {
            assert(key_set(chord).contains(chord[0]));
            assert(!key_set(empty).contains(chord[0]));
            assert(!same_keys(empty, chord));
        }
        lemma_edge_iff_armed_and_match(chord, prev_before(empty, samples, i), samples[i]);
    };
    assert(edge_seq(chord, empty, samples) =~= Seq::new(
        samples.len(),
        |i: int| starts_match_run(chord, samples, i),
    ));
}

/// **No false positives on supersets.**  If every sample holds the chord
/// strictly as a proper subset — every chord key plus at least one more —
/// then no tick reports true.
pub proof fn lemma_no_fire_on_supersets(chord: Seq<u64>, prev0: Seq<u64>, samples: Seq<Seq<u64>>)
    requires
        forall|i: int|
            0 <= i < samples.len() ==> key_set(chord).subset_of(key_set(#[trigger] samples[i]))
                && key_set(samples[i]) != key_set(chord),
    ensures
        forall|i: int| 0 <= i < samples.len() ==> !edge_seq(chord, prev0, samples)[i],
{
}

/// **No false positives on subsets.**  If no sample holds the full chord,
/// no tick reports true.
pub proof fn lemma_no_fire_on_subsets(chord: Seq<u64>, prev0: Seq<u64>, samples: Seq<Seq<u64>>)
    requires
        forall|i: int|
            0 <= i < samples.len() ==> !key_set(chord).subset_of(key_set(#[trigger] samples[i])),
    ensures
        forall|i: int| 0 <= i < samples.len() ==> !edge_seq(chord, prev0, samples)[i],
{
    assert forall|i: int| 0 <= i < samples.len() implies !edge_seq(chord, prev0, samples)[i] by {
        if same_keys(samples[i], chord) {
            assert(key_set(chord).subset_of(key_set(samples[i])));
        }
    };
}

/// **Order insensitivity.**  Two scripts whose samples pairwise report the
/// same key sets — in whatever order, with whatever duplication — produce
/// the same tick results, from starting samples that also agree as sets.
pub proof fn lemma_order_insensitivity(
    chord: Seq<u64>,
    prev0a: Seq<u64>,
    prev0b: Seq<u64>,
    s1: Seq<Seq<u64>>,
    s2: Seq<Seq<u64>>,
)
    requires
        s1.len() == s2.len(),
        same_keys(prev0a, prev0b),
        forall|i: int| 0 <= i < s1.len() ==> same_keys(#[trigger] s1[i], s2[i]),
    ensures
        edge_seq(chord, prev0a, s1) == edge_seq(chord, prev0b, s2),
{
    assert forall|i: int| 0 <= i < s1.len() implies edge_seq(chord, prev0a, s1)[i] == edge_seq(
        chord,
        prev0b,
        s2,
    )[i] by {
        assert(same_keys(s1[i], s2[i]));
        if i > 0 {
            assert(same_keys(s1[i - 1], s2[i - 1]));
        }
    };
    assert(edge_seq(chord, prev0a, s1) =~= edge_seq(chord, prev0b, s2));
}

/// A script of `n` ticks that all observe the same sample `held`.
pub open spec fn repeated(held: Seq<u64>, n: nat) -> Seq<Seq<u64>> {
    Seq::new(n, |j: int| held)
}

/// **Idempotence of holding.**  A script that repeats one chord-matching
/// sample reports true on the first tick and on no other.
pub proof fn lemma_holding_is_idempotent(chord: Seq<u64>, held: Seq<u64>, n: nat)
    requires
        chord.len() > 0,
        n > 0,
        same_keys(held, chord),
    ensures
        edge_seq(chord, Seq::<u64>::empty(), repeated(held, n))[0],
        forall|i: int|
            1 <= i < n ==> !(#[trigger] edge_seq(chord, Seq::<u64>::empty(), repeated(held, n))[i]),
{
    lemma_rising_edge_uniqueness(chord, repeated(held, n));
    assert(repeated(held, n)[0] == held);
    assert(starts_match_run(chord, repeated(held, n), 0));
    assert(edge_seq(chord, Seq::<u64>::empty(), repeated(held, n))[0] == starts_match_run(
        chord,
        repeated(held, n),
        0,
    ));
}

/// **Re-arm after release.**  The script [chord, not-chord, chord] reports
/// [true, false, true]: a release observed for one tick re-arms the
/// detector, and the next matching sample fires again.
pub proof fn lemma_rearm_after_release(chord: Seq<u64>, a: Seq<u64>, b: Seq<u64>, c: Seq<u64>)
    requires
        chord.len() > 0,
        same_keys(a, chord),
        !same_keys(b, chord),
        same_keys(c, chord),
    ensures
        edge_seq(chord, Seq::<u64>::empty(), seq![a, b, c]) == seq![true, false, true],
{
    let script = seq![a, b, c];
    lemma_rising_edge_uniqueness(chord, script);
    assert(starts_match_run(chord, script, 0));
    assert(!starts_match_run(chord, script, 1));
    assert(starts_match_run(chord, script, 2));
    assert(edge_seq(chord, Seq::<u64>::empty(), script) =~= seq![true, false, true]);
}

} // verus!
