//! Scripted end-to-end scenarios for the chord detector, with a chord of
//! two keys (CTRL and G stand-ins) unless noted otherwise.

use keybind::Keybind;
use keybind::KeybindError;

const CTRL: u64 = 29;
const G: u64 = 34;
const SHIFT: u64 = 42;

fn detector(chord: &[u64]) -> Keybind {
    Keybind::new(chord).expect("non-empty chord must be accepted")
}

fn results(chord: &[u64], samples: Vec<Vec<u64>>) -> Vec<bool> {
    let mut kb = detector(chord);
    kb.run_script(&samples)
}

#[test]
fn hold_and_release_fires_once() {
    let r = results(
        &[CTRL, G],
        vec![vec![], vec![CTRL], vec![CTRL, G], vec![CTRL, G], vec![CTRL], vec![]],
    );
    assert_eq!(r, vec![false, false, true, false, false, false]);
}

#[test]
fn superset_then_exact_match_is_rising_edge() {
    let r = results(&[CTRL, G], vec![vec![CTRL, G, SHIFT], vec![CTRL, G]]);
    assert_eq!(r, vec![false, true]);
}

#[test]
fn order_of_reported_keys_is_ignored() {
    let r = results(&[CTRL, G], vec![vec![G, CTRL], vec![CTRL, G]]);
    assert_eq!(r, vec![true, false]);
}

#[test]
fn release_rearms_every_time() {
    let r = results(
        &[CTRL, G],
        vec![vec![CTRL, G], vec![], vec![CTRL, G], vec![], vec![CTRL, G]],
    );
    assert_eq!(r, vec![true, false, true, false, true]);
}

#[test]
fn single_key_chord_behaves_identically() {
    const A: u64 = 30;
    let r = results(&[A], vec![vec![A], vec![A], vec![], vec![A]]);
    assert_eq!(r, vec![true, false, false, true]);
}

#[test]
fn empty_chord_yields_no_detector() {
    match Keybind::new(&[]) {
        Ok(_) => panic!("an empty chord must be rejected"),
        Err(e) => assert_eq!(e, KeybindError::EmptyChord),
    }
}

#[test]
fn one_true_per_maximal_matching_run() {
    // Matching runs start at ticks 0, 3 and 6; no other tick fires.
    let r = results(
        &[CTRL, G],
        vec![
            vec![CTRL, G],
            vec![CTRL, G],
            vec![SHIFT],
            vec![CTRL, G],
            vec![],
            vec![],
            vec![CTRL, G],
        ],
    );
    assert_eq!(r, vec![true, false, false, true, false, false, true]);
}

#[test]
fn strict_supersets_never_fire() {
    let r = results(
        &[CTRL, G],
        vec![vec![CTRL, G, SHIFT], vec![G, SHIFT, CTRL], vec![CTRL, G, SHIFT]],
    );
    assert_eq!(r, vec![false, false, false]);
}

#[test]
fn incomplete_chords_never_fire() {
    let r = results(&[CTRL, G], vec![vec![CTRL], vec![G], vec![], vec![CTRL, SHIFT]]);
    assert_eq!(r, vec![false, false, false, false]);
}

#[test]
fn permuted_scripts_agree() {
    let a = results(
        &[CTRL, G],
        vec![vec![CTRL, G, SHIFT], vec![G, CTRL], vec![G, CTRL], vec![]],
    );
    let b = results(
        &[CTRL, G],
        vec![vec![G, SHIFT, CTRL], vec![CTRL, G], vec![G, CTRL], vec![]],
    );
    assert_eq!(a, b);
}

#[test]
fn holding_the_chord_fires_only_on_the_first_tick() {
    let held = vec![CTRL, G];
    let script: Vec<Vec<u64>> = std::iter::repeat(held).take(8).collect();
    let r = results(&[CTRL, G], script);
    assert_eq!(r[0], true);
    assert!(r[1..].iter().all(|&e| !e));
}

#[test]
fn chord_not_chord_chord_fires_twice() {
    let r = results(&[CTRL, G], vec![vec![CTRL, G], vec![CTRL], vec![CTRL, G]]);
    assert_eq!(r, vec![true, false, true]);
}

#[test]
fn duplicate_keys_in_chord_collapse() {
    // {CTRL, CTRL, G} is the chord {CTRL, G}: the plain pair still matches.
    let r = results(&[CTRL, CTRL, G], vec![vec![CTRL, G], vec![CTRL, G]]);
    assert_eq!(r, vec![true, false]);
}

#[test]
fn duplicate_keys_in_sample_collapse() {
    let r = results(&[CTRL, G], vec![vec![CTRL, CTRL, G]]);
    assert_eq!(r, vec![true]);
}
