//! The decisions of the ambient effect's screen capture: when a capture
//! attempt is retried, and which of the two staging textures a sample is
//! read back from.

use vstd::prelude::*;

verus! {

/// How many times a frame is asked for before the capture gives up.
pub const SAMPLE_ATTEMPTS: u32 = 5;

/// What one capture attempt produced.
#[derive(Clone, Copy, Debug, PartialEq, Eq, Structural)]
pub enum FrameOutcome {
    /// A colour; `black_fallback` when every sample of it was ignored as
    /// black, which is what a frame captured before the desktop is drawn
    /// looks like.
    Colour { black_fallback: bool },
    /// No new frame was ready.
    NoFrame,
}

/// What the capture does after an attempt.
#[derive(Clone, Copy, Debug, PartialEq, Eq, Structural)]
pub enum SampleStep {
    /// Use the colour just produced (and remember it).
    Accept,
    /// Pause briefly and ask again.
    Retry,
    /// Fall back to the last colour produced, or fail when there is none.
    UseLast,
}

/// After attempt `attempt` (counting from 0): before any colour has been
/// produced a black frame is retried while attempts remain, since it is most
/// likely a frame from before the desktop was drawn; a missing frame is
/// retried while attempts remain, and then the last colour stands.
pub open spec fn spec_sample_step(attempt: u32, has_last: bool, outcome: FrameOutcome) -> SampleStep {
    match outcome {
        FrameOutcome::Colour { black_fallback } => if !has_last && attempt + 1 < SAMPLE_ATTEMPTS && black_fallback {
            SampleStep::Retry
        } else {
            SampleStep::Accept
        },
        FrameOutcome::NoFrame => if attempt + 1 < SAMPLE_ATTEMPTS {
            SampleStep::Retry
        } else {
            SampleStep::UseLast
        },
    }
}

pub fn sample_step(attempt: u32, has_last: bool, outcome: FrameOutcome) -> (step: SampleStep)
    requires
        attempt < SAMPLE_ATTEMPTS,
    ensures
        step == spec_sample_step(attempt, has_last, outcome),
{
    match outcome {
        FrameOutcome::Colour { black_fallback } => {
            if !has_last && attempt + 1 < SAMPLE_ATTEMPTS && black_fallback {
                SampleStep::Retry
            } else {
                SampleStep::Accept
            }
        },
        FrameOutcome::NoFrame => {
            if attempt + 1 < SAMPLE_ATTEMPTS {
                SampleStep::Retry
            } else {
                SampleStep::UseLast
            }
        },
    }
}

/// The capture always ends within its attempts: the last attempt never asks
/// for a retry, and a colour is only ever turned down before one has been
/// accepted.
pub proof fn the_last_attempt_never_retries(has_last: bool, outcome: FrameOutcome)
    ensures
        spec_sample_step((SAMPLE_ATTEMPTS - 1) as u32, has_last, outcome) != SampleStep::Retry,
        has_last ==> (outcome is Colour ==> spec_sample_step(0, has_last, outcome) == SampleStep::Accept),
{
}

/// Two staging textures used in turn: each sample copies into one while the
/// other, filled the sample before, is read back, so the GPU copy has a whole
/// frame to finish before the CPU waits on it.
#[derive(Clone, Copy, Debug, Default, PartialEq, Eq, Structural)]
pub struct StagingPipeline {
    /// The texture the next copy goes into (0 or 1).
    pub write_index: usize,
    /// Whether a copy has been made before, so the other texture holds data.
    pub primed: bool,
}

impl StagingPipeline {
    pub open spec fn wf(&self) -> bool {
        self.write_index < 2
    }

    pub fn new() -> (pipeline: Self)
        ensures
            pipeline.wf(),
            pipeline.write_index == 0,
            !pipeline.primed,
    {
        StagingPipeline { write_index: 0, primed: false }
    }

    /// After the copy for this sample has gone into `write_index`: the
    /// texture to read back (the one filled last time, or this one on the
    /// very first sample), and the pipeline turned for the next.
    pub fn take_read_index(&mut self) -> (read: usize)
        requires
            old(self).wf(),
        ensures
            final(self).wf(),
            read == spec_read_index(*old(self)),
            *final(self) == turned(*old(self)),
    {
        let w = self.write_index;
        assert((w ^ 1) == 1 - w) by (bit_vector)
            requires
                w < 2,
        ;
        let read = if self.primed { w ^ 1 } else { w };
        self.primed = true;
        self.write_index = w ^ 1;
        read
    }

    /// Resizing recreates both textures, so nothing is left to read back.
    pub fn reset(&mut self)
        ensures
            final(self).wf(),
            final(self).write_index == 0,
            !final(self).primed,
    {
        self.write_index = 0;
        self.primed = false;
    }
}

/// The texture a sample reads back from.
pub open spec fn spec_read_index(p: StagingPipeline) -> int {
    if p.primed { 1 - p.write_index } else { p.write_index as int }
}

/// The pipeline after a sample.
pub open spec fn turned(p: StagingPipeline) -> StagingPipeline {
    StagingPipeline { write_index: (1 - p.write_index) as usize, primed: true }
}

/// From the second sample on, every read-back is of the texture the sample
/// before wrote into, never of the one being written now.
pub proof fn a_read_back_is_one_sample_behind(p: StagingPipeline)
    requires
        p.wf(),
    ensures
        spec_read_index(turned(p)) == p.write_index,
        spec_read_index(turned(p)) != turned(p).write_index,
        turned(p).wf(),
{
}

} // verus!
