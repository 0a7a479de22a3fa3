use blade_controlhub::capture_stage::CaptureStage;

#[test]
fn every_stage_parses_back_from_its_name() {
    for stage in CaptureStage::all() {
        assert_eq!(CaptureStage::parse(stage.name()), Ok(stage));
    }
}

#[test]
fn an_unknown_stage_is_named_in_the_error() {
    assert_eq!(CaptureStage::parse("sideways"), Err("unknown stage sideways".to_string()));
    assert_eq!(CaptureStage::parse("Full"), Err("unknown stage Full".to_string()));
}

#[test]
fn stages_run_from_the_control_to_the_window_capture() {
    let all = CaptureStage::all();
    assert_eq!(all[0], CaptureStage::Baseline);
    assert_eq!(all[5], CaptureStage::WgcSparse);
    assert_eq!(CaptureStage::IdleDuplication.name(), "idle-duplication");
    assert_eq!(CaptureStage::Baseline.description(), "no GPU objects created (control)");
}
