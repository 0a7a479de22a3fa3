use blade_controlhub::binding::{available_device_actions, Chord, DeviceAction, KeyAction, DEVICE_ACTIONS, MOD_CTRL};

#[test]
fn a_command_lab_action_is_finished_once_it_names_something() {
    assert!(!KeyAction::ToggleCustomControl { name: "  ".to_owned() }.is_complete());
    assert!(KeyAction::ToggleCustomControl { name: "Snap Tap".to_owned() }.is_complete());
}

#[test]
fn the_vapour_chamber_action_is_offered_only_where_the_hardware_is() {
    {
        let vapour_chamber = true;
        assert!(DeviceAction::ToggleUnderglow.is_available(vapour_chamber));
        assert!(available_device_actions(vapour_chamber).contains(&DeviceAction::ToggleUnderglow));
        assert_eq!(available_device_actions(vapour_chamber).len(), DEVICE_ACTIONS.len());
    }
    {
        let vapour_chamber = false;
        assert!(!DeviceAction::ToggleUnderglow.is_available(vapour_chamber));

        let offered = available_device_actions(vapour_chamber);
        assert!(!offered.contains(&DeviceAction::ToggleUnderglow));
        assert_eq!(offered.len(), DEVICE_ACTIONS.len() - 1, "no other action depends on the hardware");
        assert!(offered.contains(&DeviceAction::CyclePerfMode), "the rest of the vocabulary is unaffected");
    }
}

#[test]
fn filtering_preserves_the_order_the_window_lists_actions_in() {
    let offered = available_device_actions(false);
    let expected: Vec<_> = DEVICE_ACTIONS
        .iter()
        .copied()
        .filter(|action| *action != DeviceAction::ToggleUnderglow)
        .collect();

    assert_eq!(offered, expected);
}

#[test]
fn only_the_vapour_chamber_action_depends_on_the_hardware() {
    for action in DEVICE_ACTIONS.iter().filter(|action| **action != DeviceAction::ToggleUnderglow) {
        assert!(action.is_available(false), "{action:?} must not be gated on hardware it does not use");
    }
}

#[test]
fn every_device_action_is_listed_for_the_window() {
    let mut listed: Vec<String> = DEVICE_ACTIONS.iter().map(|action| format!("{action:?}")).collect();
    listed.sort();
    listed.dedup();

    assert_eq!(listed.len(), DEVICE_ACTIONS.len(), "duplicate device action");
    assert_eq!(DEVICE_ACTIONS.len(), 14);
}

#[test]
fn half_finished_actions_are_incomplete() {
    assert!(!KeyAction::Macro { steps: Vec::new() }.is_complete());
    assert!(!KeyAction::Macro { steps: vec![Chord::default()] }.is_complete());
    assert!(!KeyAction::Key { chord: Chord::default() }.is_complete());
    assert!(!KeyAction::LaunchApp { path: "  ".to_owned(), args: String::new(), name: String::new() }.is_complete());
    assert!(!KeyAction::RunCommand { command: String::new() }.is_complete());
    assert!(KeyAction::Nothing.is_complete());
    assert!(KeyAction::ToggleUi.is_complete());
}

#[test]
fn a_macro_is_complete_only_when_every_step_is() {
    assert!(!KeyAction::Macro { steps: vec![Chord::default(), Chord { modifiers: MOD_CTRL, key: 0x43 }] }
        .is_complete());
    assert!(KeyAction::Macro { steps: vec![Chord { modifiers: 0, key: 0x41 }, Chord { modifiers: MOD_CTRL, key: 0x43 }] }
        .is_complete());
    assert!(Chord { modifiers: 0, key: 0x43 }.is_complete());
    assert!(!Chord { modifiers: MOD_CTRL, key: 0 }.is_complete());
}

#[test]
fn every_action_has_a_label() {
    assert_eq!(DeviceAction::CyclePerfMode.label(), "Cycle performance mode");
    assert_eq!(DeviceAction::ToggleUnderglow.label(), "Toggle vapour chamber light");
    for action in DEVICE_ACTIONS {
        assert!(!action.label().is_empty());
    }
}
