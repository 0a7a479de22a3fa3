//! The precision touchpad's on/off state, as Windows records it, and the
//! shortcut that flips it.

use vstd::prelude::*;

use crate::custom_bindings::SynthKey;

verus! {

/// What to assume when the state cannot be read: a touchpad is on unless
/// Windows says otherwise.
pub const DEFAULT_TRACKPAD_STATE_WHEN_UNKNOWN: bool = true;

/// The virtual key Windows reserves for toggling the touchpad.
pub const TOUCHPAD_TOGGLE_CODE: u32 = 135;

/// The registry stores the state as a number; anything but zero is on.
pub fn trackpad_state_from_registry_value(enabled: u32) -> (on: bool)
    ensures
        on == (enabled != 0),
{
    enabled != 0
}

/// The touchpad state from the registry value, when it could be read.
pub fn get_trackpad_state(registry_value: Option<u32>) -> (on: bool)
    ensures
        on == match registry_value {
            Some(enabled) => enabled != 0,
            None => DEFAULT_TRACKPAD_STATE_WHEN_UNKNOWN,
        },
{
    match registry_value {
        Some(enabled) => trackpad_state_from_registry_value(enabled),
        None => DEFAULT_TRACKPAD_STATE_WHEN_UNKNOWN,
    }
}

/// The shortcut Windows toggles the touchpad on: Win, Ctrl and the touchpad
/// key, in press order.
pub fn trackpad_toggle_combo() -> (keys: Vec<SynthKey>)
    ensures
        keys@ == seq![SynthKey::MetaLeft, SynthKey::ControlLeft, SynthKey::Code(TOUCHPAD_TOGGLE_CODE)],
{
    let mut keys: Vec<SynthKey> = Vec::new();
    keys.push(SynthKey::MetaLeft);
    keys.push(SynthKey::ControlLeft);
    keys.push(SynthKey::Code(TOUCHPAD_TOGGLE_CODE));
    keys
}

} // verus!
