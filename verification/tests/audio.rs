use blade_controlhub::audio::{
    apartment_ownership, is_bluetooth_bus, is_watched_change, mute_toggle, AudioType, DataFlow, EndpointRole,
    RPC_E_CHANGED_MODE,
};

#[test]
fn speakers_use_render_console_endpoint() {
    let selection = AudioType::Speakers.endpoint_selection();

    assert_eq!(selection.direction, DataFlow::Render);
    assert_eq!(selection.role, EndpointRole::Console);
}

#[test]
fn mic_uses_capture_communications_endpoint() {
    let selection = AudioType::Mic.endpoint_selection();

    assert_eq!(selection.direction, DataFlow::Capture);
    assert_eq!(selection.role, EndpointRole::Communications);
}

#[test]
fn toggling_mute_flips_it_and_only_the_mic_raises_an_osd() {
    let mic = mute_toggle(AudioType::Mic, false);
    assert!(mic.new_mute);
    assert_eq!(mic.mic_osd, Some(true));

    let speakers = mute_toggle(AudioType::Speakers, true);
    assert!(!speakers.new_mute);
    assert_eq!(speakers.mic_osd, None);
}

#[test]
fn an_apartment_of_the_other_kind_is_reused() {
    assert_eq!(apartment_ownership(0), Ok(true));
    assert_eq!(apartment_ownership(1), Ok(true));
    assert_eq!(apartment_ownership(RPC_E_CHANGED_MODE), Ok(false));
    assert_eq!(apartment_ownership(0x8000_4005u32 as i32), Err(0x8000_4005u32 as i32));
}

#[test]
fn only_the_watched_flow_and_role_count() {
    let selection = AudioType::Speakers.endpoint_selection();
    assert!(is_watched_change(selection, DataFlow::Render, EndpointRole::Console));
    assert!(!is_watched_change(selection, DataFlow::Capture, EndpointRole::Console));
    assert!(!is_watched_change(selection, DataFlow::Render, EndpointRole::Communications));
}

#[test]
fn bluetooth_is_recognised_by_its_bus_in_any_case() {
    assert!(is_bluetooth_bus("BTHENUM"));
    assert!(is_bluetooth_bus("bthhfenum"));
    assert!(is_bluetooth_bus("Bluetooth"));
    assert!(!is_bluetooth_bus("USB"));
    assert!(!is_bluetooth_bus(""));
}
