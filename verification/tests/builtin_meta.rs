use blade_controlhub::builtin_meta::{hypershift_labels, razer_labels, BUILT_IN_HYPERSHIFT, BUILT_IN_RAZER};
use blade_controlhub::input::KeyType;
use blade_controlhub::key_map::{builtin_key_event, builtin_keys};
use blade_controlhub::{razer_key, vkey};

#[test]
fn every_described_key_is_really_bound() {
    for (key, code, label) in BUILT_IN_RAZER {
        assert!(
            builtin_key_event(KeyType::from(key)).is_some(),
            "0x{code:02x} ({label}) is described but not bound"
        );
    }
    for (key, code, label) in BUILT_IN_HYPERSHIFT {
        assert!(
            builtin_key_event(KeyType::from(key)).is_some(),
            "0x{code:02x} ({label}) is described but not bound"
        );
    }
}

#[test]
fn every_bound_key_is_described() {
    assert_eq!(
        builtin_keys().len(),
        BUILT_IN_RAZER.len() + BUILT_IN_HYPERSHIFT.len(),
        "the built-in map and its description have drifted apart"
    );
}

#[test]
fn a_described_key_code_matches_the_key_it_names() {
    for (key, code, _) in BUILT_IN_RAZER {
        assert_eq!(razer_key::Key::from(code as u8), key);
    }
    for (key, code, _) in BUILT_IN_HYPERSHIFT {
        assert_eq!(vkey::Key::from(code as u8), key);
    }
}

#[test]
fn the_fn_layer_hides_the_vapour_chamber_key_without_the_hardware() {
    assert!(hypershift_labels(true).contains_key(&0x56));
    assert!(!hypershift_labels(false).contains_key(&0x56));
    assert!(hypershift_labels(false).contains_key(&0x54));
    assert_eq!(razer_labels().len(), BUILT_IN_RAZER.len());
    assert_eq!(razer_labels()[&0xd4], "Toggle microphone mute");
}
