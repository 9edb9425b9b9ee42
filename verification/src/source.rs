//! The platform key-state source.
//!
//! The detector consumes one capability from the outside world: "return the
//! set of keys currently held".  The `device_query` crate provides it through
//! [`device_query::DeviceState`].  What the keyboard reports depends on the
//! machine and the moment, so nothing is promised about a sample's contents;
//! the detector's contracts hold for every sample that comes back.

use vstd::prelude::*;

use device_query::DeviceQuery;

use crate::detector::KeybindError;

verus! {

#[verifier::external_type_specification]
#[verifier::external_body]
pub struct ExDeviceState(device_query::DeviceState);

/// Relies on `device_query::DeviceState::checked_new`: returns `None` when no
/// display connection can be opened, and never panics.  Whether it succeeds
/// depends on the machine, so nothing is promised of the outcome.
#[verifier::external_body]
fn open_device_state() -> Option<device_query::DeviceState> {
    device_query::DeviceState::checked_new()
}

/// Relies on `device_query::DeviceQuery::get_keys`: returns the keycodes the
/// platform reports as held right now, in an unspecified order.  The result
/// depends on the keyboard at the moment of the call, so nothing is promised
/// of its contents; each keycode is converted to its plain numeric value.
#[verifier::external_body]
pub(crate) fn read_held_keys(state: &device_query::DeviceState) -> Vec<u64> {
    state.get_keys().into_iter().map(|k| k as u64).collect()
}

/// Connect to the platform key-state provider.  Success depends on the
/// machine (a display connection must be available), so only the failure
/// side is pinned down: the one error this can report is `SourceUnavailable`.
pub fn open_source() -> (r: Result<device_query::DeviceState, KeybindError>)
    ensures
        r is Err ==> r->Err_0 == KeybindError::SourceUnavailable,
{
    match open_device_state() {
        Some(state) => Ok(state),
        None => Err(KeybindError::SourceUnavailable),
    }
}

} // verus!
