//! Command Lab recording: the countdown, and how a finished capture is
//! judged and reported.
//!
//! The capture starts first, and only then the countdown; a capture that
//! cannot start goes straight to `Failed` without a countdown that was never
//! recording anything.

use vstd::prelude::*;

verus! {

pub const COMMAND_LAB_TOTAL_STEPS: usize = 5;

/// A capture that records more commands than this is discarded as a
/// failure: the extra traffic means something other than the setting under
/// test was also talking to the device.
pub const COMMAND_LAB_MAX_CAPTURED_COMMANDS: u32 = 20;

#[derive(Clone, Copy, Debug, PartialEq, Eq, Structural)]
pub enum CommandLabStatus {
    Idle,
    Recording,
    Done,
    Cancelled,
    Failed,
    TooManyCommands,
    NoCommandsRecorded,
}

/// One command captured off the device's control endpoint, as raw bytes.
#[derive(Clone, Debug, PartialEq, Eq)]
pub struct CapturedCommand {
    pub data: Vec<u8>,
}

/// What the window and the overlay show of a recording.
#[derive(Clone, Debug, PartialEq, Eq)]
pub struct CommandLabRecordingState {
    pub status: CommandLabStatus,
    pub step: u8,
    pub captured_commands: u32,
    /// The commands of a finished capture; empty while recording and for
    /// cancelled or never-started recordings.
    pub commands: Vec<CapturedCommand>,
}

/// A recording state as values: the commands as their bytes.
pub struct RecordingStateView {
    pub status: CommandLabStatus,
    pub step: u8,
    pub captured_commands: u32,
    pub commands: Seq<Seq<u8>>,
}

/// The bytes of each command, in order.
pub open spec fn commands_view(commands: Seq<CapturedCommand>) -> Seq<Seq<u8>> {
    commands.map_values(|c: CapturedCommand| c.data@)
}

impl View for CommandLabRecordingState {
    type V = RecordingStateView;

    open spec fn view(&self) -> RecordingStateView {
        RecordingStateView {
            status: self.status,
            step: self.step,
            captured_commands: self.captured_commands,
            commands: commands_view(self.commands@),
        }
    }
}

/// Nothing recorded, nothing running.
pub open spec fn idle_view() -> RecordingStateView {
    RecordingStateView {
        status: CommandLabStatus::Idle,
        step: 0,
        captured_commands: 0,
        commands: Seq::empty(),
    }
}

/// A recording whose capture could not start.
pub open spec fn failed_view() -> RecordingStateView {
    RecordingStateView { status: CommandLabStatus::Failed, ..idle_view() }
}

/// The state a capture ends in, from whether it was cancelled and the
/// commands it kept: the commands travel only with a finished or an
/// over-the-limit capture.
pub open spec fn finished_view(cancelled: bool, commands: Seq<Seq<u8>>) -> RecordingStateView {
    let (status, step) = spec_final_status(cancelled, commands.len() as u32);
    RecordingStateView {
        status,
        step,
        captured_commands: commands.len() as u32,
        commands: if status == CommandLabStatus::Done || status == CommandLabStatus::TooManyCommands {
            commands
        } else {
            Seq::empty()
        },
    }
}

impl CommandLabRecordingState {
    /// Nothing recorded, nothing running.
    pub fn idle() -> (s: Self)
        ensures
            s.status == CommandLabStatus::Idle,
            s.step == 0,
            s.captured_commands == 0,
            s.commands@.len() == 0,
            s@ == idle_view(),
    {
        let s = CommandLabRecordingState {
            status: CommandLabStatus::Idle,
            step: 0,
            captured_commands: 0,
            commands: Vec::new(),
        };
        assert(s@.commands =~= Seq::<Seq<u8>>::empty());
        s
    }

    /// A recording whose capture could not start.
    pub fn failed() -> (s: Self)
        ensures
            s.status == CommandLabStatus::Failed,
            s.step == 0,
            s.captured_commands == 0,
            s.commands@.len() == 0,
            s@ == failed_view(),
    {
        let s = CommandLabRecordingState {
            status: CommandLabStatus::Failed,
            step: 0,
            captured_commands: 0,
            commands: Vec::new(),
        };
        assert(s@.commands =~= Seq::<Seq<u8>>::empty());
        s
    }

    /// A copy of the state.
    pub fn duplicate(&self) -> (s: Self)
        ensures
            s.status == self.status,
            s.step == self.step,
            s.captured_commands == self.captured_commands,
            s.commands@.map_values(|c: CapturedCommand| c.data@) == self.commands@.map_values(
                |c: CapturedCommand| c.data@,
            ),
    {
        let mut commands: Vec<CapturedCommand> = Vec::new();
        let mut i: usize = 0;
        while i < self.commands.len()
            invariant
                i <= self.commands.len(),
                commands@.map_values(|c: CapturedCommand| c.data@) == self.commands@.take(
                    i as int,
                ).map_values(|c: CapturedCommand| c.data@),
            decreases self.commands.len() - i,
        {
            let data = self.commands[i].data.clone();
            commands.push(CapturedCommand { data });
            proof {
                assert(self.commands@.take(i + 1).map_values(|c: CapturedCommand| c.data@)
                    =~= self.commands@.take(i as int).map_values(|c: CapturedCommand| c.data@).push(
                    self.commands@[i as int].data@,
                ));
                assert(commands@.map_values(|c: CapturedCommand| c.data@) =~= commands@.drop_last().map_values(
                    |c: CapturedCommand| c.data@,
                ).push(commands@.last().data@));
            }
            i = i + 1;
        }
        assert(self.commands@.take(self.commands@.len() as int) =~= self.commands@);
        CommandLabRecordingState {
            status: self.status,
            step: self.step,
            captured_commands: self.captured_commands,
            commands,
        }
    }
}

pub open spec fn spec_final_status(cancelled: bool, captured_commands: u32) -> (CommandLabStatus, u8) {
    if cancelled {
        (CommandLabStatus::Cancelled, COMMAND_LAB_TOTAL_STEPS as u8)
    } else if captured_commands > COMMAND_LAB_MAX_CAPTURED_COMMANDS {
        (CommandLabStatus::TooManyCommands, 0)
    } else if captured_commands == 0 {
        (CommandLabStatus::NoCommandsRecorded, COMMAND_LAB_TOTAL_STEPS as u8)
    } else {
        (CommandLabStatus::Done, COMMAND_LAB_TOTAL_STEPS as u8)
    }
}

/// Maps a finished capture to its published status and step. A cancellation
/// wins over everything and keeps full progress; a capture over the limit is
/// a failure with zero progress.
pub fn final_capture_status(cancelled: bool, captured_commands: u32) -> (r: (CommandLabStatus, u8))
    ensures
        r == spec_final_status(cancelled, captured_commands),
{
    if cancelled {
        (CommandLabStatus::Cancelled, COMMAND_LAB_TOTAL_STEPS as u8)
    } else if captured_commands > COMMAND_LAB_MAX_CAPTURED_COMMANDS {
        (CommandLabStatus::TooManyCommands, 0)
    } else if captured_commands == 0 {
        (CommandLabStatus::NoCommandsRecorded, COMMAND_LAB_TOTAL_STEPS as u8)
    } else {
        (CommandLabStatus::Done, COMMAND_LAB_TOTAL_STEPS as u8)
    }
}

/// The state published once the capture is running.
pub fn started_state(captured_count: u32) -> (s: CommandLabRecordingState)
    ensures
        s.status == CommandLabStatus::Recording,
        s.step == 0,
        s.captured_commands == captured_count,
        s.commands@.len() == 0,
{
    CommandLabRecordingState {
        status: CommandLabStatus::Recording,
        step: 0,
        captured_commands: captured_count,
        commands: Vec::new(),
    }
}

/// The state published at each countdown step.
pub fn progress_state(step: usize, captured_count: u32) -> (s: CommandLabRecordingState)
    ensures
        s.status == CommandLabStatus::Recording,
        s.step == (if step < COMMAND_LAB_TOTAL_STEPS {
            step
        } else {
            COMMAND_LAB_TOTAL_STEPS
        }),
        s.captured_commands == captured_count,
        s.commands@.len() == 0,
{
    let shown = if step < COMMAND_LAB_TOTAL_STEPS {
        step
    } else {
        COMMAND_LAB_TOTAL_STEPS
    };
    CommandLabRecordingState {
        status: CommandLabStatus::Recording,
        step: shown as u8,
        captured_commands: captured_count,
        commands: Vec::new(),
    }
}

/// The state published when a capture ends, from whether it was cancelled
/// and the commands it kept once the runtime's own writes were dropped. The
/// commands travel only with a finished or an over-the-limit capture.
pub fn finished_state(cancelled: bool, commands: Vec<CapturedCommand>) -> (s: CommandLabRecordingState)
    requires
        commands@.len() <= u32::MAX,
    ensures
        s.captured_commands == commands@.len(),
        (s.status, s.step) == spec_final_status(cancelled, commands@.len() as u32),
        s.status == CommandLabStatus::Done || s.status == CommandLabStatus::TooManyCommands
            ==> s.commands@ == commands@,
        !(s.status == CommandLabStatus::Done || s.status == CommandLabStatus::TooManyCommands)
            ==> s.commands@.len() == 0,
        s@ == finished_view(cancelled, commands_view(commands@)),
{
    let captured_commands = commands.len() as u32;
    let (status, step) = final_capture_status(cancelled, captured_commands);
    let commands = match status {
        CommandLabStatus::Done | CommandLabStatus::TooManyCommands => commands,
        _ => Vec::new(),
    };
    let s = CommandLabRecordingState { status, step, captured_commands, commands };
    assert(commands_view(Seq::<CapturedCommand>::empty()) =~= Seq::<Seq<u8>>::empty());
    s
}

/// What the overlay shows for a state: a label and how many of the steps are
/// lit. Idle and never-started recordings show nothing.
pub open spec fn spec_osd(status: CommandLabStatus, step: u8) -> Option<(Seq<char>, usize)> {
    match status {
        CommandLabStatus::Recording => Some(("Recording"@, step as usize)),
        CommandLabStatus::Done => Some(("Done"@, step as usize)),
        CommandLabStatus::TooManyCommands => Some(("Failed"@, 0)),
        CommandLabStatus::NoCommandsRecorded => Some(("No commands"@, step as usize)),
        CommandLabStatus::Cancelled => Some(("Cancelled"@, step as usize)),
        CommandLabStatus::Idle | CommandLabStatus::Failed => None,
    }
}

/// The overlay tells the statuses it shows apart: two different statuses
/// never share a label. Idle and never-started recordings show nothing, a
/// capture over the limit shows no progress, and every other shown status
/// lights as many steps as it has reached.
pub proof fn each_shown_status_has_its_own_label(a: CommandLabStatus, b: CommandLabStatus, sa: u8, sb: u8)
    ensures
        a != b ==> (spec_osd(a, sa) matches Some((la, _)) ==> (spec_osd(b, sb) matches Some((lb, _))
            ==> la != lb)),
        spec_osd(a, sa) is None <==> (a == CommandLabStatus::Idle || a == CommandLabStatus::Failed),
        spec_osd(a, sa) matches Some((_, lit)) ==> lit == (if a == CommandLabStatus::TooManyCommands {
            0
        } else {
            sa as usize
        }),
{
    reveal_strlit("Recording");
    reveal_strlit("Done");
    reveal_strlit("Failed");
    reveal_strlit("No commands");
    reveal_strlit("Cancelled");
    if a != b {
        if let Some((la, _)) = spec_osd(a, sa) {
            if let Some((lb, _)) = spec_osd(b, sb) {
                if la == lb {
                    assert(la.len() == lb.len());
                    assert(la[0] == lb[0]);
                }
            }
        }
    }
}

pub fn osd_for_state(state: &CommandLabRecordingState) -> (osd: Option<(&'static str, usize)>)
    ensures
        match osd {
            Some((label, steps)) => spec_osd(state.status, state.step) == Some((label@, steps)),
            None => spec_osd(state.status, state.step) is None,
        },
{
    match state.status {
        CommandLabStatus::Recording => Some(("Recording", state.step as usize)),
        CommandLabStatus::Done => Some(("Done", state.step as usize)),
        CommandLabStatus::TooManyCommands => Some(("Failed", 0)),
        CommandLabStatus::NoCommandsRecorded => Some(("No commands", state.step as usize)),
        CommandLabStatus::Cancelled => Some(("Cancelled", state.step as usize)),
        CommandLabStatus::Idle | CommandLabStatus::Failed => None,
    }
}

// ---------------------------------------------------------------------------
// Countdown
// ---------------------------------------------------------------------------

/// Where the countdown is.
#[derive(Clone, Copy, Debug, PartialEq, Eq, Structural)]
pub enum CountdownPhase {
    /// About to show `step`, once cancellation has been checked.
    Ready(usize),
    /// Has just shown `step`.
    Shown(usize),
    /// Waiting out the interval after `step`.
    Waiting(usize),
    /// Over; `cancelled` says how it ended.
    Finished(bool),
}

/// What the runtime is to do next for the countdown.
#[derive(Clone, Copy, Debug, PartialEq, Eq, Structural)]
pub enum CountdownAction {
    /// Publish this step.
    Show(usize),
    /// Wait one step interval, watching for cancellation.
    Wait,
    /// The countdown is over.
    Finished { cancelled: bool },
}

/// One progress step per interval until the total is reached or the
/// recording is cancelled.
#[derive(Clone, Copy, Debug, PartialEq, Eq, Structural)]
pub struct Countdown {
    pub phase: CountdownPhase,
}

/// The countdown never runs past the last step.
pub open spec fn countdown_wf(c: Countdown) -> bool {
    match c.phase {
        CountdownPhase::Ready(s) => s <= COMMAND_LAB_TOTAL_STEPS,
        CountdownPhase::Shown(s) => s <= COMMAND_LAB_TOTAL_STEPS,
        CountdownPhase::Waiting(s) => s < COMMAND_LAB_TOTAL_STEPS,
        CountdownPhase::Finished(_) => true,
    }
}

impl Countdown {
    pub fn new() -> (c: Countdown)
        ensures
            c.phase == CountdownPhase::Ready(0),
            countdown_wf(c),
    {
        Countdown { phase: CountdownPhase::Ready(0) }
    }

    /// Advances the countdown, given whether cancellation is requested now.
    /// A step is shown only when no cancellation is pending; after the last
    /// step the countdown finishes uncancelled.
    pub fn advance(&mut self, cancelled: bool) -> (action: CountdownAction)
        requires
            countdown_wf(*old(self)),
        ensures
            countdown_wf(*final(self)),
            match old(self).phase {
                CountdownPhase::Ready(s) => if cancelled {
                    action == (CountdownAction::Finished { cancelled: true })
                        && final(self).phase == CountdownPhase::Finished(true)
                } else {
                    action == CountdownAction::Show(s) && final(self).phase == CountdownPhase::Shown(
                        s,
                    )
                },
                CountdownPhase::Shown(s) => if s < COMMAND_LAB_TOTAL_STEPS {
                    action == CountdownAction::Wait && final(self).phase == CountdownPhase::Waiting(
                        s,
                    )
                } else {
                    action == (CountdownAction::Finished { cancelled: false })
                        && final(self).phase == CountdownPhase::Finished(false)
                },
                CountdownPhase::Waiting(s) => if cancelled {
                    action == (CountdownAction::Finished { cancelled: true })
                        && final(self).phase == CountdownPhase::Finished(true)
                } else {
                    action == CountdownAction::Show((s + 1) as usize) && final(self).phase
                        == CountdownPhase::Shown((s + 1) as usize)
                },
                CountdownPhase::Finished(c) => action == (CountdownAction::Finished { cancelled: c })
                    && final(self).phase == old(self).phase,
            },
    {
        match self.phase {
            CountdownPhase::Ready(s) => {
                if cancelled {
                    self.phase = CountdownPhase::Finished(true);
                    CountdownAction::Finished { cancelled: true }
                } else {
                    self.phase = CountdownPhase::Shown(s);
                    CountdownAction::Show(s)
                }
            },
            CountdownPhase::Shown(s) => {
                if s < COMMAND_LAB_TOTAL_STEPS {
                    self.phase = CountdownPhase::Waiting(s);
                    CountdownAction::Wait
                } else {
                    self.phase = CountdownPhase::Finished(false);
                    CountdownAction::Finished { cancelled: false }
                }
            },
            CountdownPhase::Waiting(s) => {
                if cancelled {
                    self.phase = CountdownPhase::Finished(true);
                    CountdownAction::Finished { cancelled: true }
                } else {
                    self.phase = CountdownPhase::Shown(s + 1);
                    CountdownAction::Show(s + 1)
                }
            },
            CountdownPhase::Finished(c) => CountdownAction::Finished { cancelled: c },
        }
    }
}

/// The steps a countdown shows and how it ends, when cancellation is first
/// seen at read number `cancel_at` (reads counted from 0; never, if past the
/// last read). Each show and each wait takes one read.
pub open spec fn run_from(phase: CountdownPhase, cancel_at: nat, reads: nat, fuel: nat) -> (
    Seq<usize>,
    bool,
)
    decreases fuel,
{
    if fuel == 0 {
        (Seq::empty(), false)
    } else {
        let cancelled = reads >= cancel_at;
        match phase {
            CountdownPhase::Ready(s) => if cancelled {
                (Seq::empty(), true)
            } else {
                let rest = run_from(CountdownPhase::Shown(s), cancel_at, reads + 1, (fuel - 1) as nat);
                (seq![s] + rest.0, rest.1)
            },
            CountdownPhase::Shown(s) => if s < COMMAND_LAB_TOTAL_STEPS {
                run_from(CountdownPhase::Waiting(s), cancel_at, reads + 1, (fuel - 1) as nat)
            } else {
                (Seq::empty(), false)
            },
            CountdownPhase::Waiting(s) => if cancelled {
                (Seq::empty(), true)
            } else {
                let rest = run_from(CountdownPhase::Shown((s + 1) as usize), cancel_at, reads + 1, (fuel - 1) as nat);
                (seq![(s + 1) as usize] + rest.0, rest.1)
            },
            CountdownPhase::Finished(c) => (Seq::empty(), c),
        }
    }
}

/// A countdown that is never cancelled shows every step from 0 to the total
/// in order and finishes uncancelled.
pub proof fn uncancelled_countdown_reaches_the_end(cancel_at: nat, fuel: nat)
    requires
        cancel_at >= 11,
        fuel >= 12,
    ensures
        run_from(CountdownPhase::Ready(0), cancel_at, 0, fuel) == (
            seq![0usize, 1, 2, 3, 4, 5],
            false,
        ),
{
    reveal_with_fuel(run_from, 13);
    assert(run_from(CountdownPhase::Ready(0), cancel_at, 0, fuel).0 =~= seq![
        0usize,
        1,
        2,
        3,
        4,
        5,
    ]);
}

// ---------------------------------------------------------------------------
// The recording slot
// ---------------------------------------------------------------------------

/// The one recording the runtime keeps: its published state, whether a
/// worker and its cancellation flag are out, and whether a capture holds the
/// device (while it does, the runtime's own writes to the device wait).
///
/// A recording goes: [`begin_record`], once any earlier worker has been
/// stopped with [`cancel_command_lab_record`]; [`worker_spawned`]; then the
/// worker stores its states with [`store_state`] and ends with
/// [`finish_recording`], or with [`fail_to_start`] when no capture could be
/// started (the runtime calls that too when the worker cannot be spawned).
pub struct CommandLabRecording {
    pub state: CommandLabRecordingState,
    /// A cancellation flag has been handed to a worker.
    pub cancel_armed: bool,
    /// A worker thread is running and must be joined.
    pub worker_running: bool,
    /// A capture holds the device.
    pub capture_active: bool,
}

/// The recording slot as values.
pub struct SlotView {
    pub state: RecordingStateView,
    pub cancel_armed: bool,
    pub worker_running: bool,
    pub capture_active: bool,
}

impl View for CommandLabRecording {
    type V = SlotView;

    open spec fn view(&self) -> SlotView {
        SlotView {
            state: self.state@,
            cancel_armed: self.cancel_armed,
            worker_running: self.worker_running,
            capture_active: self.capture_active,
        }
    }
}

/// What stopping the active worker requires of the runtime.
#[derive(Clone, Copy, Debug, PartialEq, Eq, Structural)]
pub struct CancelOrder {
    /// Raise the worker's cancellation flag.
    pub signal_cancel: bool,
    /// Join the worker thread.
    pub join_worker: bool,
}

/// The slot once a recording has been begun: idle, with a cancellation flag
/// handed out and the capture holding the device.
pub open spec fn slot_after_begin(slot: SlotView) -> SlotView {
    SlotView { state: idle_view(), cancel_armed: true, worker_running: false, capture_active: true }
}

/// The slot once the worker thread is running.
pub open spec fn slot_after_spawn(slot: SlotView) -> SlotView {
    SlotView { worker_running: true, ..slot }
}

/// The slot once the worker has been told to stop and is being joined.
pub open spec fn slot_after_cancel(slot: SlotView) -> SlotView {
    SlotView { cancel_armed: false, worker_running: false, ..slot }
}

/// The slot once a state has been published.
pub open spec fn slot_after_store(slot: SlotView, state: RecordingStateView) -> SlotView {
    SlotView { state, ..slot }
}

/// The slot once the worker has ended with `state`: the flag is withdrawn
/// and the device released.
pub open spec fn slot_after_finish(slot: SlotView, state: RecordingStateView) -> SlotView {
    SlotView { state, cancel_armed: false, capture_active: false, ..slot }
}

impl CommandLabRecording {
    pub fn new() -> (r: Self)
        ensures
            r.state.status == CommandLabStatus::Idle,
            r.state.step == 0,
            r.state.captured_commands == 0,
            r.state.commands@.len() == 0,
            !r.cancel_armed,
            !r.worker_running,
            !r.capture_active,
    {
        CommandLabRecording {
            state: CommandLabRecordingState::idle(),
            cancel_armed: false,
            worker_running: false,
            capture_active: false,
        }
    }
}

/// Begins a recording: the capture takes the device, a cancellation flag is
/// handed to the coming worker and the slot reads idle until the capture is
/// running. Called once any earlier worker has been stopped, so that worker
/// cannot overwrite what this one publishes.
pub fn begin_record(recording: &mut CommandLabRecording)
    ensures
        final(recording)@ == slot_after_begin(old(recording)@),
{
    recording.state = CommandLabRecordingState::idle();
    recording.cancel_armed = true;
    recording.worker_running = false;
    recording.capture_active = true;
}

/// Records that the worker thread is running and must be joined.
pub fn worker_spawned(recording: &mut CommandLabRecording)
    ensures
        final(recording)@ == slot_after_spawn(old(recording)@),
{
    recording.worker_running = true;
}

/// Publishes a state of a recording in progress: the started state, or a
/// countdown step.
pub fn store_state(recording: &mut CommandLabRecording, state: CommandLabRecordingState)
    ensures
        final(recording)@ == slot_after_store(old(recording)@, state@),
{
    recording.state = state;
}

/// Ends a recording with its final state: the slot holds it, the
/// cancellation flag is withdrawn and the capture no longer holds the device.
pub fn finish_recording(recording: &mut CommandLabRecording, state: CommandLabRecordingState)
    ensures
        final(recording)@ == slot_after_finish(old(recording)@, state@),
{
    recording.state = state;
    recording.cancel_armed = false;
    recording.capture_active = false;
}

/// Ends a recording whose capture could not start: the slot reads `Failed`,
/// the flag is withdrawn and the device released. Returns the state, which
/// is what the start reports.
pub fn fail_to_start(recording: &mut CommandLabRecording) -> (state: CommandLabRecordingState)
    ensures
        state@ == failed_view(),
        final(recording)@ == slot_after_finish(old(recording)@, failed_view()),
{
    let state = CommandLabRecordingState::failed();
    recording.state = state.duplicate();
    recording.cancel_armed = false;
    recording.capture_active = false;
    state
}

/// A worker that panicked cannot release the device itself; the runtime does
/// it when the join reports the panic.
pub fn worker_panicked(recording: &mut CommandLabRecording)
    ensures
        final(recording)@ == (SlotView { capture_active: false, ..old(recording)@ }),
{
    recording.capture_active = false;
}

/// Stops any active worker: its flag is raised and it is joined, and the
/// slot no longer holds either. The worker, on its way out, stores its final
/// state and releases the device ([`finish_recording`]).
pub fn cancel_command_lab_record(recording: &mut CommandLabRecording) -> (order: CancelOrder)
    ensures
        order.signal_cancel == old(recording).cancel_armed,
        order.join_worker == old(recording).worker_running,
        !final(recording).cancel_armed,
        !final(recording).worker_running,
        final(recording).state == old(recording).state,
        final(recording)@ == slot_after_cancel(old(recording)@),
{
    let order = CancelOrder {
        signal_cancel: recording.cancel_armed,
        join_worker: recording.worker_running,
    };
    recording.cancel_armed = false;
    recording.worker_running = false;
    order
}

/// Stops any recording during shutdown, so the capture filter is released.
pub fn stop_command_lab_recording(recording: &mut CommandLabRecording) -> (order: CancelOrder)
    ensures
        order.signal_cancel == old(recording).cancel_armed,
        order.join_worker == old(recording).worker_running,
        !final(recording).cancel_armed,
        !final(recording).worker_running,
        final(recording).state == old(recording).state,
        final(recording)@ == slot_after_cancel(old(recording)@),
{
    cancel_command_lab_record(recording)
}

/// Every way a recording ends leaves no flag out and releases the device: a
/// recording begun, started and cancelled before its capture recorded
/// anything reads `Cancelled` at full progress once its worker has ended, and
/// one whose capture could not start reads `Failed`.
pub proof fn a_recording_always_ends_released(slot: SlotView, state: RecordingStateView)
    ensures
        !slot_after_finish(slot, state).cancel_armed,
        !slot_after_finish(slot, state).capture_active,
        slot_after_finish(slot, state).state == state,
        ({
            let started = RecordingStateView {
                status: CommandLabStatus::Recording,
                step: 0,
                captured_commands: 0,
                commands: Seq::empty(),
            };
            let s1 = slot_after_spawn(slot_after_begin(slot));
            let s2 = slot_after_store(s1, started);
            let s3 = slot_after_cancel(s2);
            let s4 = slot_after_finish(s3, finished_view(true, Seq::empty()));
            &&& s1.cancel_armed && s1.capture_active && s1.worker_running
            &&& s1.state == idle_view()
            &&& s4.state == (RecordingStateView {
                status: CommandLabStatus::Cancelled,
                step: COMMAND_LAB_TOTAL_STEPS as u8,
                captured_commands: 0,
                commands: Seq::empty(),
            })
            &&& !s4.cancel_armed && !s4.worker_running && !s4.capture_active
        }),
        ({
            let s = slot_after_finish(slot_after_begin(slot), failed_view());
            &&& s.state.status == CommandLabStatus::Failed
            &&& !s.cancel_armed && !s.capture_active
        }),
{
}

/// The state last published.
pub fn command_lab_state(recording: &CommandLabRecording) -> (s: CommandLabRecordingState)
    ensures
        s@ == recording.state@,
        s.status == recording.state.status,
        s.step == recording.state.step,
        s.captured_commands == recording.state.captured_commands,
        s.commands@.map_values(|c: CapturedCommand| c.data@) == recording.state.commands@.map_values(
            |c: CapturedCommand| c.data@,
        ),
{
    recording.state.duplicate()
}

} // verus!
