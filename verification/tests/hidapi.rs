use blade_controlhub::binding::{DeviceAction, KeyAction, KeyBinding, KeyBindings};
use blade_controlhub::custom_bindings::{replace, ResolvedBindings};
use blade_controlhub::error::AppError;
use blade_controlhub::hidapi::{
    handle_razer_special_key, interface_is_readable_or_not_denied, is_listener_device, parse_special_key_report,
    set_fn_pressed, HidApiListener, HidListenerState, SpecialKeyOutcome, SpecialKeyReport, RAZER_VID,
};
use blade_controlhub::key_capture::KeyCapture;
use blade_controlhub::key_map::SharedFlags;

#[test]
fn special_key_report_extracts_key_code() {
    assert_eq!(parse_special_key_report(&[0x04, 0x0a, 0xff]), SpecialKeyReport::KeyCode(0x0a));
}

#[test]
fn special_key_report_rejects_short_special_report() {
    assert_eq!(parse_special_key_report(&[0x04]), SpecialKeyReport::TooShort { len: 1 });
}

#[test]
fn special_key_report_classifies_unrelated_report_id() {
    assert_eq!(parse_special_key_report(&[0x02, 0x0a]), SpecialKeyReport::UnexpectedReportId(0x02));
}

#[test]
fn an_empty_report_is_too_short() {
    assert_eq!(parse_special_key_report(&[]), SpecialKeyReport::TooShort { len: 0 });
}

#[test]
fn fn_state_pushes_only_on_a_real_transition() {
    let mut flags = SharedFlags::default();
    flags.fn_pressed = false;

    assert!(set_fn_pressed(&mut flags, true), "Fn going down is a transition");
    assert!(flags.fn_pressed);

    assert!(
        !set_fn_pressed(&mut flags, true),
        "a second 0x0a must not re-push; the reports repeat while Fn is held"
    );
    assert!(flags.fn_pressed);

    assert!(set_fn_pressed(&mut flags, false), "Fn going up is a transition");
    assert!(!flags.fn_pressed);

    assert!(
        !set_fn_pressed(&mut flags, false),
        "0x00 arrives for every special-key release, not just Fn's"
    );
}

#[test]
fn stop_clears_hid_listener_running_state_and_fn_state() {
    let mut state = HidListenerState { running: true };
    let mut flags = SharedFlags::default();
    flags.fn_pressed = true;
    flags.primary_multimedia_keys = true;

    HidApiListener::stop(&mut state, &mut flags);

    assert!(!state.running);
    assert!(!flags.fn_pressed);
    assert!(flags.primary_multimedia_keys, "only Fn is forgotten");
}

#[test]
fn a_start_with_no_readable_interface_fails_and_releases_the_listeners() {
    let listener = HidApiListener::new(0x02b6);
    let mut state = HidListenerState::default();

    assert!(!listener.start(&mut state));
    assert!(state.running);
    assert_eq!(listener.finish_start(&mut state, 0), Err(AppError::NoInterfacesAccessible));
    assert!(!state.running);
}

#[test]
fn a_second_start_reports_the_listeners_already_running() {
    let listener = HidApiListener::new(0x02b6);
    let mut state = HidListenerState::default();

    assert!(!listener.start(&mut state));
    assert_eq!(listener.finish_start(&mut state, 2), Ok(2));
    assert!(listener.start(&mut state));
}

#[test]
fn only_the_keyboards_own_interfaces_are_listened_on() {
    assert!(is_listener_device(RAZER_VID, 0x02b6, 0x02b6));
    assert!(!is_listener_device(RAZER_VID, 0x02b7, 0x02b6));
    assert!(!is_listener_device(0x046d, 0x02b6, 0x02b6));
}

#[test]
fn a_denied_interface_is_skipped_but_other_failures_are_not() {
    assert!(interface_is_readable_or_not_denied(&Ok(16)));
    assert!(!interface_is_readable_or_not_denied(&Err("Access is denied.".to_string())));
    assert!(interface_is_readable_or_not_denied(&Err("device disconnected".to_string())));
}

#[test]
fn a_special_key_runs_its_binding_unless_a_capture_takes_it() {
    let mut table = ResolvedBindings::new();
    replace(
        &mut table,
        &KeyBindings {
            razer: vec![KeyBinding {
                key_code: 0xd3,
                label: String::new(),
                action: KeyAction::Device { action: DeviceAction::CycleRgbEffect },
            }],
            hypershift: Vec::new(),
        },
    );
    let mut flags = SharedFlags::default();
    let mut capture = KeyCapture { listening: true };

    assert!(matches!(
        handle_razer_special_key(&mut flags, &mut capture, &table, 0xd3),
        SpecialKeyOutcome::Captured(0xd3)
    ));
    match handle_razer_special_key(&mut flags, &mut capture, &table, 0xd3) {
        SpecialKeyOutcome::Run(action) => {
            assert_eq!(action, KeyAction::Device { action: DeviceAction::CycleRgbEffect })
        }
        _ => panic!("the bound key must run its action"),
    }
    assert!(matches!(
        handle_razer_special_key(&mut flags, &mut capture, &table, 0xd4),
        SpecialKeyOutcome::Unmapped(0xd4)
    ));
    assert!(matches!(
        handle_razer_special_key(&mut flags, &mut capture, &table, 0x0a),
        SpecialKeyOutcome::Fn { pressed: true, changed: true }
    ));
    assert!(flags.fn_pressed, "the key map reads the Fn the listener recorded");
}

#[test]
fn a_start_whose_hid_context_cannot_open_fails_and_releases_the_listeners() {
    let listener = HidApiListener::new(0x02b6);
    let mut state = HidListenerState::default();
    let mut flags = SharedFlags::default();
    flags.fn_pressed = true;

    assert!(!listener.start(&mut state));
    assert_eq!(
        listener.abandon_start(&mut state, "hidapi init failed".to_string()),
        Err(AppError::HidApi("hidapi init failed".to_string()))
    );
    assert!(!state.running);
    assert!(flags.fn_pressed, "opening the HID context does not touch Fn");
}
