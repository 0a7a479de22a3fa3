use blade_controlhub::input::KeyType;
use blade_controlhub::key_map::builtin_key_event;
use blade_controlhub::razer_key;
use blade_controlhub::binding::{Chord, DeviceAction, KeyAction, KeyBinding, KeyBindings, MOD_ALT, MOD_CTRL, MOD_SHIFT, MOD_WIN};
use blade_controlhub::custom_bindings::{
    chord_keys, file_name, hypershift, is_synthesizing, keys_sent, launch_label, needs_worker, razer, replace, send_keys,
    truncate,
    ResolvedBindings, SynthKey, SynthesisGuard,
};

fn row(key_code: u16, action: KeyAction) -> KeyBinding {
    KeyBinding { key_code, label: String::new(), action }
}

#[test]
fn synthesizing_a_macro_clears_its_guard_afterwards() {
    let mut guard = SynthesisGuard::new();
    assert!(!is_synthesizing(&guard));

    // No steps means no simulated input.
    let combos = send_keys(&mut guard, &[]);
    assert!(combos.is_empty());
    keys_sent(&mut guard);

    assert!(!is_synthesizing(&guard));
}

#[test]
fn the_guard_is_up_while_keys_are_sent() {
    let mut guard = SynthesisGuard::new();
    let combos = send_keys(
        &mut guard,
        &[Chord { modifiers: MOD_CTRL, key: 0x43 }, Chord::default(), Chord { modifiers: 0, key: 0x56 }],
    );
    assert!(is_synthesizing(&guard));
    assert_eq!(combos, vec![vec![SynthKey::ControlLeft, SynthKey::Code(0x43)], vec![SynthKey::Code(0x56)]]);
    keys_sent(&mut guard);
    assert!(!is_synthesizing(&guard));
}

#[test]
fn a_chord_with_no_modifiers_is_just_the_key() {
    assert_eq!(chord_keys(&Chord { modifiers: 0, key: 0x70 }), vec![SynthKey::Code(0x70)]);
}

#[test]
fn a_chord_can_hold_every_modifier_at_once() {
    let keys = chord_keys(&Chord { modifiers: MOD_CTRL | MOD_ALT | MOD_SHIFT | MOD_WIN, key: 0x2e });

    assert_eq!(
        keys,
        vec![SynthKey::ControlLeft, SynthKey::Alt, SynthKey::ShiftLeft, SynthKey::MetaLeft, SynthKey::Code(0x2e)]
    );
}

#[test]
fn a_chord_presses_its_modifiers_before_the_key() {
    let keys = chord_keys(&Chord { modifiers: MOD_CTRL | MOD_SHIFT, key: 0x1b });

    assert_eq!(keys, vec![SynthKey::ControlLeft, SynthKey::ShiftLeft, SynthKey::Code(0x1b)]);
}

#[test]
fn a_long_command_is_shortened_for_the_overlay() {
    assert_eq!(truncate("shutdown /s /t 0", 28), "shutdown /s /t 0");
    assert_eq!(truncate(&"a".repeat(40), 10).chars().count(), 10);
}

#[test]
fn a_launch_label_falls_back_to_the_executable_name() {
    assert_eq!(file_name(r"C:\Program Files\Thing\thing.exe"), "thing");
    assert_eq!(file_name(r"C:\Tools\thing"), "thing");
    assert_eq!(file_name("thing.exe"), "thing");
    assert_eq!(file_name(""), "");
}

#[test]
fn a_packaged_launch_label_survives_a_model_id() {
    let label = file_name("shell:AppsFolder\\Microsoft.WindowsNotepad_8wekyb3d8bbwe!App");

    assert!(!label.is_empty());
}

#[test]
fn truncation_never_splits_a_character_or_underflows() {
    assert_eq!(truncate("abc", 3), "abc");
    assert_eq!(truncate("abcd", 3), "ab\u{2026}");
    assert_eq!(truncate("abc", 1), "\u{2026}");
    assert_eq!(truncate("abc", 0), "\u{2026}");
    assert_eq!(truncate("", 0), "");

    let text = "\u{e9}\u{e9}\u{e9}\u{e9}";
    assert_eq!(truncate(text, 2).chars().count(), 2);
}

#[test]
fn a_named_launch_keeps_its_name() {
    assert_eq!(launch_label(r"C:\Tools\thing.exe", "My Thing"), "My Thing");
    assert_eq!(launch_label(r"C:\Tools\thing.exe", "  "), "thing");
}

#[test]
fn the_last_complete_row_for_a_key_wins() {
    let mut table = ResolvedBindings::new();
    replace(
        &mut table,
        &KeyBindings {
            razer: vec![
                row(0xd3, KeyAction::Device { action: DeviceAction::CyclePerfMode }),
                row(0xd3, KeyAction::Device { action: DeviceAction::CycleRgbEffect }),
                row(0xd3, KeyAction::RunCommand { command: String::new() }),
            ],
            hypershift: vec![row(0x50, KeyAction::ToggleUi)],
        },
    );

    assert_eq!(razer(&table, 0xd3), Some(KeyAction::Device { action: DeviceAction::CycleRgbEffect }));
    assert_eq!(razer(&table, 0xd4), None);
    assert_eq!(hypershift(&table, 0x50), Some(KeyAction::ToggleUi));
    assert_eq!(hypershift(&table, 0xd3), None);

    replace(&mut table, &KeyBindings::default());
    assert_eq!(razer(&table, 0xd3), None);
}

#[test]
fn a_hypershift_binding_works_for_a_key_the_vkey_enum_does_not_name() {
    assert_eq!(
        blade_controlhub::vkey::Key::from(0x4b),
        blade_controlhub::vkey::Key::Unknown,
        "K is deliberately absent from the built-in key enum"
    );

    let mut table = ResolvedBindings::new();
    replace(&mut table, &KeyBindings { razer: Vec::new(), hypershift: vec![row(0x4b, KeyAction::ToggleUi)] });

    assert_eq!(hypershift(&table, 0x4b), Some(KeyAction::ToggleUi));
}

#[test]
fn a_binding_can_claim_a_key_the_built_in_map_handles() {
    assert!(
        builtin_key_event(KeyType::from(razer_key::Key::Perf)).is_some(),
        "the performance key must have a built-in action for this to mean anything"
    );

    let mut table = ResolvedBindings::new();
    replace(
        &mut table,
        &KeyBindings {
            razer: vec![row(0xd3, KeyAction::Device { action: DeviceAction::CycleRgbEffect })],
            hypershift: Vec::new(),
        },
    );

    assert_eq!(razer(&table, 0xd3), Some(KeyAction::Device { action: DeviceAction::CycleRgbEffect }));
}

#[test]
fn the_two_tables_do_not_collide_on_a_shared_code() {
    let mut table = ResolvedBindings::new();
    replace(
        &mut table,
        &KeyBindings {
            razer: vec![row(0x24, KeyAction::ToggleUi)],
            hypershift: vec![row(0x24, KeyAction::RunCommand { command: "hypershift".to_owned() })],
        },
    );

    assert_eq!(razer(&table, 0x24), Some(KeyAction::ToggleUi));
    assert_eq!(hypershift(&table, 0x24), Some(KeyAction::RunCommand { command: "hypershift".to_owned() }));
}

#[test]
fn replacing_bindings_swaps_both_tables() {
    let mut table = ResolvedBindings::new();
    replace(
        &mut table,
        &KeyBindings {
            razer: vec![row(0x24, KeyAction::ToggleUi)],
            hypershift: vec![row(0x4b, KeyAction::ToggleUi)],
        },
    );

    assert_eq!(razer(&table, 0x24), Some(KeyAction::ToggleUi));
    assert_eq!(hypershift(&table, 0x4b), Some(KeyAction::ToggleUi));

    replace(&mut table, &KeyBindings::default());

    assert_eq!(razer(&table, 0x24), None);
    assert_eq!(hypershift(&table, 0x4b), None);
}

#[test]
fn incomplete_rows_are_never_bound() {
    let mut table = ResolvedBindings::new();
    replace(
        &mut table,
        &KeyBindings {
            razer: vec![row(
                0x25,
                KeyAction::LaunchApp { path: String::new(), args: String::new(), name: String::new() },
            )],
            hypershift: Vec::new(),
        },
    );

    assert_eq!(
        razer(&table, 0x25),
        None,
        "a row with no application path must fall through to the built-in map"
    );
}

/// One unfinished row must not take the rest of its table down with it.
#[test]
fn an_incomplete_row_does_not_disturb_the_complete_ones() {
    let mut table = ResolvedBindings::new();
    replace(
        &mut table,
        &KeyBindings {
            razer: vec![
                row(0x24, KeyAction::ToggleUi),
                row(0x25, KeyAction::RunCommand { command: "   ".to_owned() }),
                row(0x26, KeyAction::ToggleUi),
            ],
            hypershift: Vec::new(),
        },
    );

    assert_eq!(razer(&table, 0x24), Some(KeyAction::ToggleUi));
    assert_eq!(razer(&table, 0x25), None);
    assert_eq!(razer(&table, 0x26), Some(KeyAction::ToggleUi));
}

/// A hand-edited config can hold duplicates; the later row wins rather than
/// the table being rejected.
#[test]
fn a_duplicated_key_code_resolves_to_the_last_row() {
    let mut table = ResolvedBindings::new();
    replace(
        &mut table,
        &KeyBindings {
            razer: vec![
                row(0x24, KeyAction::ToggleUi),
                row(0x24, KeyAction::RunCommand { command: "later".to_owned() }),
            ],
            hypershift: Vec::new(),
        },
    );

    assert_eq!(razer(&table, 0x24), Some(KeyAction::RunCommand { command: "later".to_owned() }));
}

#[test]
fn a_do_nothing_action_is_not_even_dispatched() {
    let guard = SynthesisGuard::new();
    // Running "do nothing" returns without handing anything to a worker.
    assert!(!needs_worker(&KeyAction::Nothing));
    assert!(needs_worker(&KeyAction::ToggleUi));

    assert!(!is_synthesizing(&guard));
}
