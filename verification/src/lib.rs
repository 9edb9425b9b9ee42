//! An edge-triggered keyboard chord detector.
//!
//! A *chord* is a set of keys that must be held simultaneously.  The core of
//! the crate is [`detector::Keybind`], which turns a stream of held-key
//! samples into a clean sequence of single activations: one per press of the
//! chord, none while the keys stay held, and a fresh one after a release.

pub mod detector;
pub mod keys;
pub mod laws;
pub mod source;

pub use detector::Keybind;
pub use detector::KeybindError;
