use blade_controlhub::key_capture::{begin_razer_key_capture, record_razer_key_code, stop_razer_key_capture, KeyCapture};

#[test]
fn capture_arms_and_disarms_the_shared_listening_flag() {
    let mut capture = KeyCapture::default();
    begin_razer_key_capture(&mut capture);
    assert!(capture.listening);

    stop_razer_key_capture(&mut capture);
    assert!(!capture.listening);
}

#[test]
fn recording_a_key_without_an_armed_capture_leaves_the_flag_clear() {
    let mut capture = KeyCapture::default();
    stop_razer_key_capture(&mut capture);

    assert!(!record_razer_key_code(&mut capture, 0x42), "nothing was armed to consume it");
    assert!(!capture.listening);
}

#[test]
fn an_armed_capture_consumes_the_key() {
    let mut capture = KeyCapture::default();
    begin_razer_key_capture(&mut capture);

    assert!(record_razer_key_code(&mut capture, 0x42));
    assert!(!capture.listening);
}

#[test]
fn one_arming_captures_exactly_one_key() {
    let mut capture = KeyCapture::default();
    begin_razer_key_capture(&mut capture);

    assert!(record_razer_key_code(&mut capture, 0xd4));
    assert!(!record_razer_key_code(&mut capture, 0xd4));
}
