use std::cell::Cell;

use blade_controlhub::command_lab::{
    begin_record, cancel_command_lab_record, command_lab_state, fail_to_start, final_capture_status, finished_state,
    finish_recording, started_state, stop_command_lab_recording, store_state, worker_spawned, CapturedCommand,
    CommandLabRecording, CommandLabRecordingState, CommandLabStatus, Countdown, CountdownAction,
    COMMAND_LAB_MAX_CAPTURED_COMMANDS, COMMAND_LAB_TOTAL_STEPS,
};

/// Drives the countdown the way the recording worker does, with no wait
/// between steps: returns whether it was cancelled.
fn run_countdown(cancel: &Cell<bool>, mut on_step: impl FnMut(usize)) -> bool {
    let mut countdown = Countdown::new();
    loop {
        match countdown.advance(cancel.get()) {
            CountdownAction::Show(step) => on_step(step),
            CountdownAction::Wait => {}
            CountdownAction::Finished { cancelled } => return cancelled,
        }
    }
}

#[test]
fn idle_recording_has_no_progress() {
    let recording = CommandLabRecording::new();
    assert_eq!(command_lab_state(&recording), CommandLabRecordingState::idle());
}

#[test]
fn countdown_reaches_done_with_full_progress() {
    let cancel = Cell::new(false);
    let mut last_step = None;
    run_countdown(&cancel, |step| last_step = Some(step));

    assert_eq!(last_step, Some(COMMAND_LAB_TOTAL_STEPS));
}

#[test]
fn countdown_stops_early_when_cancelled() {
    let cancel = Cell::new(false);
    let mut steps = Vec::new();
    let cancelled = run_countdown(&cancel, |step| {
        steps.push(step);
        if step == 2 {
            cancel.set(true);
        }
    });

    assert!(cancelled);
    assert_eq!(steps, vec![0, 1, 2]);
}

#[test]
fn finished_capture_reports_done_with_full_progress() {
    assert_eq!(
        final_capture_status(false, COMMAND_LAB_MAX_CAPTURED_COMMANDS),
        (CommandLabStatus::Done, COMMAND_LAB_TOTAL_STEPS as u8)
    );
}

#[test]
fn capture_over_the_limit_reports_failed_with_zero_progress() {
    assert_eq!(
        final_capture_status(false, COMMAND_LAB_MAX_CAPTURED_COMMANDS + 1),
        (CommandLabStatus::TooManyCommands, 0)
    );
}

#[test]
fn empty_capture_reports_no_commands_with_full_progress() {
    assert_eq!(
        final_capture_status(false, 0),
        (CommandLabStatus::NoCommandsRecorded, COMMAND_LAB_TOTAL_STEPS as u8)
    );
}

#[test]
fn cancelled_capture_stays_cancelled_even_over_the_limit() {
    assert_eq!(
        final_capture_status(true, COMMAND_LAB_MAX_CAPTURED_COMMANDS + 1),
        (CommandLabStatus::Cancelled, COMMAND_LAB_TOTAL_STEPS as u8)
    );
}

#[test]
fn an_uncancelled_countdown_shows_every_step_once() {
    let cancel = Cell::new(false);
    let mut steps = Vec::new();
    let cancelled = run_countdown(&cancel, |step| steps.push(step));

    assert!(!cancelled);
    assert_eq!(steps, vec![0, 1, 2, 3, 4, 5]);
}

#[test]
fn a_countdown_cancelled_before_it_starts_shows_nothing() {
    let cancel = Cell::new(true);
    let mut steps = Vec::new();

    assert!(run_countdown(&cancel, |step| steps.push(step)));
    assert!(steps.is_empty());
}

#[test]
fn cancelling_signals_and_joins_an_active_worker_once() {
    let mut recording = CommandLabRecording::new();
    recording.cancel_armed = true;
    recording.worker_running = true;

    let order = cancel_command_lab_record(&mut recording);
    assert!(order.signal_cancel);
    assert!(order.join_worker);

    let again = cancel_command_lab_record(&mut recording);
    assert!(!again.signal_cancel);
    assert!(!again.join_worker);
}

#[test]
fn a_finished_capture_keeps_its_commands() {
    let commands = vec![
        CapturedCommand { data: vec![1, 2, 3] },
        CapturedCommand { data: vec![4] },
    ];
    let state = finished_state(false, commands.clone());

    assert_eq!(state.status, CommandLabStatus::Done);
    assert_eq!(state.step, COMMAND_LAB_TOTAL_STEPS as u8);
    assert_eq!(state.captured_commands, 2);
    assert_eq!(state.commands, commands);
}

/// Begins a recording the way the runtime does, with a capture that records
/// nothing: returns the state the start reports.
fn begin(recording: &mut CommandLabRecording) -> CommandLabRecordingState {
    cancel_command_lab_record(recording);
    begin_record(recording);
    worker_spawned(recording);
    let started = started_state(0);
    store_state(recording, started.clone());
    started
}

/// The worker's way out after a cancellation, once its countdown stopped.
fn worker_ends_cancelled(recording: &mut CommandLabRecording) {
    finish_recording(recording, finished_state(true, Vec::new()));
}

#[test]
fn begin_blocks_until_recording_starts_and_cancel_publishes_cancelled_state() {
    let mut recording = CommandLabRecording::new();
    let started = begin(&mut recording);

    assert_eq!(
        started,
        CommandLabRecordingState {
            status: CommandLabStatus::Recording,
            step: 0,
            captured_commands: 0,
            commands: Vec::new(),
        }
    );

    let order = cancel_command_lab_record(&mut recording);
    assert!(order.signal_cancel && order.join_worker);
    worker_ends_cancelled(&mut recording);

    assert_eq!(
        command_lab_state(&recording),
        CommandLabRecordingState {
            status: CommandLabStatus::Cancelled,
            step: COMMAND_LAB_TOTAL_STEPS as u8,
            captured_commands: 0,
            commands: Vec::new(),
        }
    );
}

#[test]
fn capture_gate_blocks_the_executor_until_the_worker_finishes() {
    let mut recording = CommandLabRecording::new();
    assert!(!recording.capture_active);
    let started = begin(&mut recording);
    assert_eq!(started.status, CommandLabStatus::Recording);
    assert!(recording.capture_active);
    cancel_command_lab_record(&mut recording);
    worker_ends_cancelled(&mut recording);
    assert!(!recording.capture_active);
}

#[test]
fn a_capture_that_cannot_start_reports_failed_and_releases_the_device() {
    let mut recording = CommandLabRecording::new();
    begin_record(&mut recording);
    worker_spawned(&mut recording);

    let state = fail_to_start(&mut recording);

    assert_eq!(state.status, CommandLabStatus::Failed);
    assert_eq!((state.step, state.captured_commands), (0, 0));
    assert!(state.commands.is_empty());
    assert_eq!(command_lab_state(&recording), state);
    assert!(!recording.cancel_armed && !recording.capture_active);
}

#[test]
fn stopping_for_shutdown_cancels_and_the_worker_releases_the_device() {
    let mut recording = CommandLabRecording::new();
    begin(&mut recording);

    let order = stop_command_lab_recording(&mut recording);
    assert!(order.signal_cancel && order.join_worker);
    worker_ends_cancelled(&mut recording);

    assert!(!recording.cancel_armed && !recording.worker_running && !recording.capture_active);
    let idle = stop_command_lab_recording(&mut recording);
    assert!(!idle.signal_cancel && !idle.join_worker);
}
