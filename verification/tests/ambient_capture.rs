use blade_controlhub::ambient_capture::{sample_step, FrameOutcome, SampleStep, StagingPipeline, SAMPLE_ATTEMPTS};
use blade_controlhub::color_math::{sample_columns, sample_rows, SAMPLE_HEIGHT, SAMPLE_WIDTH};

#[test]
fn a_black_first_frame_is_retried_but_a_later_one_is_kept() {
    let black = FrameOutcome::Colour { black_fallback: true };
    assert_eq!(sample_step(0, false, black), SampleStep::Retry);
    assert_eq!(sample_step(SAMPLE_ATTEMPTS - 1, false, black), SampleStep::Accept);
    assert_eq!(sample_step(0, true, black), SampleStep::Accept);
    assert_eq!(sample_step(0, false, FrameOutcome::Colour { black_fallback: false }), SampleStep::Accept);
}

#[test]
fn a_missing_frame_is_retried_then_the_last_colour_stands() {
    for attempt in 0..SAMPLE_ATTEMPTS - 1 {
        assert_eq!(sample_step(attempt, true, FrameOutcome::NoFrame), SampleStep::Retry);
    }
    assert_eq!(sample_step(SAMPLE_ATTEMPTS - 1, true, FrameOutcome::NoFrame), SampleStep::UseLast);
}

#[test]
fn staging_reads_back_the_texture_written_a_sample_earlier() {
    let mut pipeline = StagingPipeline::new();
    assert_eq!(pipeline.take_read_index(), 0, "the very first sample reads its own copy");
    assert_eq!(pipeline.take_read_index(), 0, "then the texture written the sample before");
    assert_eq!(pipeline.take_read_index(), 1);
    assert_eq!(pipeline.take_read_index(), 0);
    pipeline.reset();
    assert_eq!(pipeline.take_read_index(), 0);
}

#[test]
fn the_sample_grid_spans_the_screen() {
    let columns = sample_columns(2560);
    assert_eq!(columns.len(), SAMPLE_WIDTH as usize);
    assert_eq!(columns[0], 40);
    assert_eq!(columns[31], 2520);
    let rows = sample_rows(1440);
    assert_eq!(rows.len(), SAMPLE_HEIGHT as usize);
    assert_eq!(rows[0], 40);
    assert_eq!(rows[17], 1400);
    assert!(sample_columns(0).iter().all(|x| *x == 0), "an empty axis samples its only edge");
}
