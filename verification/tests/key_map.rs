use blade_controlhub::custom_bindings::SynthKey;
use blade_controlhub::input::KeyType;
use blade_controlhub::key_map::{
    builtin_key_event, builtin_keys, BuiltinAction, Flag, KeyCombo, KeyEvent, KeyEventAction, SharedFlags, Source,
};
use blade_controlhub::{razer_key, vkey};

#[test]
fn key_event_action_executes_only_when_conditions_match() {
    let mut flags = SharedFlags::default();
    flags.fn_pressed = true;
    flags.alt_pressed = false;
    let action = KeyEventAction::new(BuiltinAction::CyclePerfMode, vec![Source::IsTrue(Flag::FnPressed)]);
    let blocked = KeyEventAction::new(BuiltinAction::CyclePerfMode, vec![Source::IsTrue(Flag::AltPressed)]);

    assert!(action.execute(&flags));
    assert!(!blocked.execute(&flags));
}

#[test]
fn key_combo_events_press_in_order_and_release_in_reverse() {
    let combo = KeyCombo::new(&[SynthKey::ControlLeft, SynthKey::ShiftLeft, SynthKey::KeyP]);

    assert_eq!(
        combo.events(),
        vec![
            KeyEvent::Press(SynthKey::ControlLeft),
            KeyEvent::Press(SynthKey::ShiftLeft),
            KeyEvent::Press(SynthKey::KeyP),
            KeyEvent::Release(SynthKey::KeyP),
            KeyEvent::Release(SynthKey::ShiftLeft),
            KeyEvent::Release(SynthKey::ControlLeft),
        ]
    );
}

#[test]
fn key_combo_keeps_every_key_it_is_given() {
    let combo = KeyCombo::new(&[
        SynthKey::ControlLeft,
        SynthKey::Alt,
        SynthKey::ShiftLeft,
        SynthKey::MetaLeft,
        SynthKey::Code(0x41),
    ]);

    assert_eq!(combo.keys.len(), 5);
    assert!(combo.events().contains(&KeyEvent::Press(SynthKey::Code(0x41))));
    assert_eq!(
        combo.events().last(),
        Some(&KeyEvent::Release(SynthKey::ControlLeft)),
        "the first key pressed is the last released"
    );
}

#[test]
fn every_condition_must_hold() {
    let mut flags = SharedFlags::default();
    flags.fn_pressed = true;
    let both = KeyEventAction::new(
        BuiltinAction::ToggleMicMute,
        vec![Source::IsTrue(Flag::FnPressed), Source::IsFalse(Flag::AltPressed)],
    );
    assert!(both.execute(&flags));
    flags.alt_pressed = true;
    assert!(!both.execute(&flags));

    let none = KeyEventAction::new(BuiltinAction::ToggleMicMute, Vec::new());
    assert!(none.execute(&flags));
}

#[test]
fn the_top_row_follows_the_media_key_setting() {
    // F1 mutes with Fn held, or without Fn when media keys are primary.
    let entry = builtin_key_event(KeyType::VKey(vkey::Key::F1)).expect("F1 is in the built-in map");
    let mut flags = SharedFlags::default();
    assert!(!entry.execute(&flags));
    flags.fn_pressed = true;
    assert!(entry.execute(&flags));
    flags.primary_multimedia_keys = true;
    assert!(!entry.execute(&flags));
    flags.fn_pressed = false;
    assert!(entry.execute(&flags));
}

#[test]
fn razer_special_keys_are_in_the_built_in_map() {
    assert!(builtin_key_event(KeyType::RazerKey(razer_key::Key::Mic)).is_some());
    assert!(builtin_keys().contains(&KeyType::RazerKey(razer_key::Key::Mic)));
    assert!(builtin_key_event(KeyType::VKey(vkey::Key::Unknown)).is_none());
}
