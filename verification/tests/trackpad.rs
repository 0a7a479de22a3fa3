use blade_controlhub::custom_bindings::SynthKey;
use blade_controlhub::trackpad::{get_trackpad_state, trackpad_state_from_registry_value, trackpad_toggle_combo};

#[test]
fn trackpad_registry_zero_maps_to_disabled() {
    assert!(!trackpad_state_from_registry_value(0));
}

#[test]
fn trackpad_registry_nonzero_maps_to_enabled() {
    assert!(trackpad_state_from_registry_value(1));
    assert!(trackpad_state_from_registry_value(u32::MAX));
}

#[test]
fn an_unreadable_state_is_assumed_on() {
    assert!(get_trackpad_state(None));
    assert!(!get_trackpad_state(Some(0)));
}

#[test]
fn trackpad_toggle_combo_uses_windows_control_touchpad_key() {
    assert_eq!(trackpad_toggle_combo(), vec![SynthKey::MetaLeft, SynthKey::ControlLeft, SynthKey::Code(135)]);
}
