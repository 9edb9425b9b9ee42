//! Samples of held keys, compared as sets.
//!
//! A keycode is a plain `u64` supplied by whatever platform layer feeds the
//! detector; the detector needs nothing from it but equality.  A sample is the
//! sequence of keycodes reported as held at one instant.  Its ordering is not
//! stable between samples, so two samples count as equal exactly when they
//! hold the same set of keycodes.

use vstd::prelude::*;

verus! {

/// The set of keycodes a sample holds, ignoring order and duplicates.
pub open spec fn key_set(s: Seq<u64>) -> Set<u64> {
    s.to_set()
}

/// Whether two samples report the same set of held keys.
pub open spec fn same_keys(a: Seq<u64>, b: Seq<u64>) -> bool {
    key_set(a) == key_set(b)
}

/// Whether the sample `s` reports the key `x` as held.
pub fn holds_key(s: &Vec<u64>, x: u64) -> (r: bool)
    ensures
        r == s@.contains(x),
{
    let mut i: usize = 0;
    while i < s.len()
        invariant
            i <= s@.len(),
            forall|j: int| 0 <= j < i ==> s@[j] != x,
        decreases s@.len() - i,
    {
        if s[i] == x {
            assert(s@.contains(x));
            return true;
        }
        i += 1;
    }
    false
}

/// Whether every key that `part` reports is also reported by `whole`.
pub fn covers(whole: &Vec<u64>, part: &Vec<u64>) -> (r: bool)
    ensures
        r == key_set(part@).subset_of(key_set(whole@)),
{
    let mut i: usize = 0;
    while i < part.len()
        invariant
            i <= part@.len(),
            forall|j: int| 0 <= j < i ==> whole@.contains(#[trigger] part@[j]),
        decreases part@.len() - i,
    {
        if !holds_key(whole, part[i]) {
            assert(key_set(part@).contains(part@[i as int]));
            return false;
        }
        i += 1;
    }
    assert forall|k: u64| key_set(part@).contains(k) implies key_set(whole@).contains(k) by {
        let j = choose|j: int| 0 <= j < part@.len() && part@[j] == k;
        assert(whole@.contains(part@[j]));
    };
    true
}

/// Whether two samples report the same set of held keys.
pub fn same_key_set(a: &Vec<u64>, b: &Vec<u64>) -> (r: bool)
    ensures
        r == same_keys(a@, b@),
{
    let fwd = covers(b, a);
    let bwd = covers(a, b);
    if fwd && bwd {
        assert(key_set(a@) =~= key_set(b@));
        true
    } else {
        assert(key_set(a@) != key_set(b@));
        false
    }
}

} // verus!
