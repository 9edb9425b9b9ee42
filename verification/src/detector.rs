//! The edge-triggered chord detector.
//!
//! A [`Keybind`] holds a target chord and the sample it saw most recently.
//! Each call to [`Keybind::tick`] hands it a fresh sample of the keys
//! currently held and asks: is this tick a *rising edge* of the chord?  A
//! tick is a rising edge exactly when the fresh sample holds the chord and
//! nothing else, and the held set changed since the previous tick.  The
//! second condition keeps the detector from firing again while the user
//! keeps the keys pressed, and re-arms it as soon as a non-matching sample
//! is seen.

use vstd::prelude::*;
use vstd::slice::slice_to_vec;

use crate::keys::same_key_set;
use crate::keys::same_keys;

verus! {

/// The ways this library can fail; nothing else is ever reported.
#[derive(Clone, Copy, Debug, PartialEq, Eq, Structural)]
pub enum KeybindError {
    /// Construction was attempted with an empty chord.
    EmptyChord,
    /// The platform key-state provider could not be initialized.
    SourceUnavailable,
}

/// Whether the fresh sample `now` is a rising edge of `chord`, given that
/// `prev` was the sample seen on the previous tick.
///
/// The sample must hold exactly the chord — every chord key and no other —
/// and must differ from the previous sample.  Samples compare as sets, so
/// the strict size rule comes for free: equal key sets have equal sizes
/// once duplicates collapse, and a proper superset or subset of the chord
/// never matches.
pub open spec fn is_rising_edge(chord: Seq<u64>, prev: Seq<u64>, now: Seq<u64>) -> bool {
    same_keys(now, chord) && !same_keys(now, prev)
}

/// The sample remembered just before tick `i` of a script whose first tick
/// starts from the remembered sample `prev0`.
pub open spec fn prev_before(prev0: Seq<u64>, samples: Seq<Seq<u64>>, i: int) -> Seq<u64> {
    if i == 0 {
        prev0
    } else {
        samples[i - 1]
    }
}

/// The tick results produced by feeding a whole script of samples, in
/// order, to a detector that starts with remembered sample `prev0`.
pub open spec fn edge_seq(chord: Seq<u64>, prev0: Seq<u64>, samples: Seq<Seq<u64>>) -> Seq<bool> {
    Seq::new(
        samples.len(),
        |i: int| is_rising_edge(chord, prev_before(prev0, samples, i), samples[i]),
    )
}

/// An edge-triggered detector for one keyboard chord.
pub struct Keybind {
    key_binds: Vec<u64>,
    pressed_keys: Vec<u64>,
}

impl Keybind {
    /// The target chord, exactly as given at construction.
    pub closed spec fn chord(self) -> Seq<u64> {
        self.key_binds@
    }

    /// The most recently observed sample; empty until the first tick.
    pub closed spec fn prev(self) -> Seq<u64> {
        self.pressed_keys@
    }

    /// A detector is well formed exactly when its chord is non-empty.
    pub open spec fn wf(self) -> bool {
        self.chord().len() > 0
    }

    /// Create a detector for `keys`.  Rejects an empty chord; any non-empty
    /// chord is accepted, and the detector starts with nothing remembered
    /// as held, so a first sample that already matches fires at once.
    pub fn new(keys: &[u64]) -> (r: Result<Keybind, KeybindError>)
        ensures
            r is Ok <==> keys@.len() > 0,
            r is Err ==> r->Err_0 == KeybindError::EmptyChord,
            r is Ok ==> r->Ok_0.wf() && r->Ok_0.chord() == keys@ && r->Ok_0.prev()
                == Seq::<u64>::empty(),
    {
        if keys.len() == 0 {
            Err(KeybindError::EmptyChord)
        } else {
            Ok(Keybind { key_binds: slice_to_vec(keys), pressed_keys: Vec::new() })
        }
    }

    /// One sample-and-decide step: remember `now` as the latest sample,
    /// unconditionally replacing the previous one, and report whether this
    /// tick is a rising edge of the chord.
    pub fn tick(&mut self, now: Vec<u64>) -> (edge: bool)
        requires
            old(self).wf(),
        ensures
            final(self).wf(),
            final(self).chord() == old(self).chord(),
            final(self).prev() == now@,
            edge == is_rising_edge(old(self).chord(), old(self).prev(), now@),
    {
        let matches_chord = same_key_set(&now, &self.key_binds);
        let changed = !same_key_set(&now, &self.pressed_keys);
        self.pressed_keys = now;
        matches_chord && changed
    }

    /// Feed a finite script of samples to the detector, one tick each, and
    /// collect the tick results in order.
    pub fn run_script(&mut self, samples: &Vec<Vec<u64>>) -> (res: Vec<bool>)
        requires
            old(self).wf(),
        ensures
            final(self).wf(),
            final(self).chord() == old(self).chord(),
            res@ == edge_seq(
                old(self).chord(),
                old(self).prev(),
                samples@.map_values(|s: Vec<u64>| s@),
            ),
            final(self).prev() == prev_before(
                old(self).prev(),
                samples@.map_values(|s: Vec<u64>| s@),
                samples@.len() as int,
            ),
    {
        self.run_script_with(samples, &(|| ()))
    }

    /// Feed a finite script of samples to the detector, invoking `action`
    /// synchronously on each tick that reports a rising edge and on no
    /// other, then collect the tick results in order.  This is the wait
    /// loop over a scripted source: one action invocation per entry of the
    /// result that is true.
    pub fn run_script_with<F: Fn()>(&mut self, samples: &Vec<Vec<u64>>, action: &F) -> (res: Vec<
        bool,
    >)
        requires
            old(self).wf(),
            call_requires(*action, ()),
        ensures
            final(self).wf(),
            final(self).chord() == old(self).chord(),
            res@ == edge_seq(
                old(self).chord(),
                old(self).prev(),
                samples@.map_values(|s: Vec<u64>| s@),
            ),
            final(self).prev() == prev_before(
                old(self).prev(),
                samples@.map_values(|s: Vec<u64>| s@),
                samples@.len() as int,
            ),
    {
        let ghost script = samples@.map_values(|s: Vec<u64>| s@);
        let ghost full = edge_seq(old(self).chord(), old(self).prev(), script);
        let mut res: Vec<bool> = Vec::new();
        let mut i: usize = 0;
        while i < samples.len()
            invariant
                i <= samples@.len(),
                script == samples@.map_values(|s: Vec<u64>| s@),
                full == edge_seq(old(self).chord(), old(self).prev(), script),
                self.wf(),
                self.chord() == old(self).chord(),
                self.prev() == prev_before(old(self).prev(), script, i as int),
                res@ == full.subrange(0, i as int),
                call_requires(*action, ()),
            decreases samples@.len() - i,
        {
            let now = copy_keys(&samples[i]);
            let edge = self.tick(now);
            if edge {
                action();
            }
            assert(script[i as int] == samples@[i as int]@);
            assert(edge == full[i as int]);
            res.push(edge);
            assert(res@ =~= full.subrange(0, i as int + 1));
            i += 1;
        }
        assert(res@ =~= full);
        res
    }

    /// The chord this detector was built for.
    pub fn chord_keys(&self) -> (r: &Vec<u64>)
        ensures
            r@ == self.chord(),
    {
        &self.key_binds
    }

    /// The sample observed on the most recent tick; empty before any tick.
    pub fn last_sample(&self) -> (r: &Vec<u64>)
        ensures
            r@ == self.prev(),
    {
        &self.pressed_keys
    }

    /// One tick driven by the platform source: sample the keys currently
    /// held, remember them, and report whether this tick is a rising edge.
    /// The sample's contents depend on the keyboard at the moment of the
    /// call, so the contract pins the decision for every possible sample:
    /// the result is the rising-edge rule applied to the sample that was
    /// recorded.
    pub fn triggered(&mut self, state: &device_query::DeviceState) -> (edge: bool)
        requires
            old(self).wf(),
        ensures
            final(self).wf(),
            final(self).chord() == old(self).chord(),
            edge == is_rising_edge(old(self).chord(), old(self).prev(), final(self).prev()),
    {
        let now = crate::source::read_held_keys(state);
        self.tick(now)
    }

    /// Whether one tick on the sample `now` would report a rising edge,
    /// without advancing the detector.
    pub fn would_trigger(&self, now: &Vec<u64>) -> (edge: bool)
        requires
            self.wf(),
        ensures
            edge == is_rising_edge(self.chord(), self.prev(), now@),
    {
        let matches_chord = same_key_set(now, &self.key_binds);
        let changed = !same_key_set(now, &self.pressed_keys);
        matches_chord && changed
    }
}

/// Copy a sample so one script can be replayed against several detectors.
pub fn copy_keys(s: &Vec<u64>) -> (r: Vec<u64>)
    ensures
        r@ == s@,
{
    let mut r: Vec<u64> = Vec::new();
    let mut i: usize = 0;
    while i < s.len()
        invariant
            i <= s@.len(),
            r@ == s@.subrange(0, i as int),
        decreases s@.len() - i,
    {
        r.push(s[i]);
        assert(r@ =~= s@.subrange(0, i as int + 1));
        i += 1;
    }
    assert(r@ =~= s@);
    r
}

} // verus!
