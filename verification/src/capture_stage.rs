//! The stages a capture benchmark can stop at, named on its command line.

use vstd::prelude::*;

use crate::text::{concat, same_text};

verus! {

/// How much of a capture pipeline to stand up.
#[derive(Clone, Copy, Debug, PartialEq, Eq, Structural)]
pub enum CaptureStage {
    /// Nothing at all: the control.
    Baseline,
    /// The graphics device on the primary adapter, nothing more.
    Device,
    /// A duplication session held open, never acquiring a frame.
    IdleDuplication,
    /// Each frame acquired and released, without copying or reading back.
    AcquireRelease,
    /// The whole production pipeline.
    Full,
    /// The window-capture frame source on its own.
    WgcSparse,
}

/// The prefix of the message for a name that is no stage.
pub const UNKNOWN_STAGE: &'static str = "unknown stage ";

pub open spec fn spec_stage_name(stage: CaptureStage) -> Seq<char> {
    match stage {
        CaptureStage::Baseline => "baseline"@,
        CaptureStage::Device => "device"@,
        CaptureStage::IdleDuplication => "idle-duplication"@,
        CaptureStage::AcquireRelease => "acquire-release"@,
        CaptureStage::Full => "full"@,
        CaptureStage::WgcSparse => "wgc-sparse"@,
    }
}

/// Every stage, in the order a benchmark runs them.
pub open spec fn spec_all_stages() -> Seq<CaptureStage> {
    seq![
        CaptureStage::Baseline,
        CaptureStage::Device,
        CaptureStage::IdleDuplication,
        CaptureStage::AcquireRelease,
        CaptureStage::Full,
        CaptureStage::WgcSparse,
    ]
}

/// What parsing `name` gives: the stage of that name, or the message naming
/// the unknown stage.
pub open spec fn spec_parse_stage(name: Seq<char>) -> Result<CaptureStage, Seq<char>> {
    if exists|stage: CaptureStage| spec_stage_name(stage) == name {
        Ok(choose|stage: CaptureStage| spec_stage_name(stage) == name)
    } else {
        Err(UNKNOWN_STAGE@ + name)
    }
}

/// No two stages share a name.
pub proof fn stage_names_are_distinct(a: CaptureStage, b: CaptureStage)
    ensures
        spec_stage_name(a) == spec_stage_name(b) ==> a == b,
{
    reveal_strlit("baseline");
    reveal_strlit("device");
    reveal_strlit("idle-duplication");
    reveal_strlit("acquire-release");
    reveal_strlit("full");
    reveal_strlit("wgc-sparse");
    if spec_stage_name(a) == spec_stage_name(b) {
        assert(spec_stage_name(a).len() == spec_stage_name(b).len());
        assert(spec_stage_name(a)[0] == spec_stage_name(b)[0]);
    }
}

/// Every stage reads back from its own name: what `name` prints, `parse`
/// accepts, and as the same stage.
pub proof fn a_stage_parses_from_its_name(stage: CaptureStage)
    ensures
        spec_parse_stage(spec_stage_name(stage)) == Ok::<CaptureStage, Seq<char>>(stage),
{
    let name = spec_stage_name(stage);
    assert(exists|s: CaptureStage| spec_stage_name(s) == name);
    let chosen = choose|s: CaptureStage| spec_stage_name(s) == name;
    stage_names_are_distinct(chosen, stage);
}

impl CaptureStage {
    /// The stage a command-line name stands for.
    pub fn parse(name: &str) -> (parsed: Result<Self, String>)
        ensures
            match parsed {
                Ok(stage) => spec_parse_stage(name@) == Ok::<CaptureStage, Seq<char>>(stage),
                Err(message) => spec_parse_stage(name@) == Err::<CaptureStage, Seq<char>>(message@),
            },
    {
        let stages = Self::all();
        let mut i: usize = 0;
        while i < 6
            invariant
                i <= 6,
                stages@ == spec_all_stages(),
                forall|j: int| 0 <= j < i ==> spec_stage_name(#[trigger] stages@[j]) != name@,
            decreases 6 - i,
        {
            let stage = stages[i];
            if same_text(stage.name(), name) {
                proof {
                    a_stage_parses_from_its_name(stage);
                }
                return Ok(stage);
            }
            i += 1;
        }
        proof {
            assert forall|stage: CaptureStage| spec_stage_name(stage) != name@ by {
                match stage {
                    CaptureStage::Baseline => assert(stages@[0] == stage),
                    CaptureStage::Device => assert(stages@[1] == stage),
                    CaptureStage::IdleDuplication => assert(stages@[2] == stage),
                    CaptureStage::AcquireRelease => assert(stages@[3] == stage),
                    CaptureStage::Full => assert(stages@[4] == stage),
                    CaptureStage::WgcSparse => assert(stages@[5] == stage),
                }
            }
        }
        Err(concat(UNKNOWN_STAGE, name))
    }

    /// What the stage stands up, for the benchmark report.
    pub fn description(self) -> (text: &'static str)
        ensures
            text@ == spec_stage_description(self),
    {
        match self {
            CaptureStage::Baseline => "no GPU objects created (control)",
            CaptureStage::Device => "D3D11 device only, no capture",
            CaptureStage::IdleDuplication => "duplication session held open, never acquired",
            CaptureStage::AcquireRelease => "acquire + release each frame, no copy or readback",
            CaptureStage::Full => "full production detection pipeline",
            CaptureStage::WgcSparse => "WindowsGraphicsCapture session + sampled readback",
        }
    }

    /// The name the stage goes by on the command line.
    pub fn name(self) -> (text: &'static str)
        ensures
            text@ == spec_stage_name(self),
    {
        match self {
            CaptureStage::Baseline => "baseline",
            CaptureStage::Device => "device",
            CaptureStage::IdleDuplication => "idle-duplication",
            CaptureStage::AcquireRelease => "acquire-release",
            CaptureStage::Full => "full",
            CaptureStage::WgcSparse => "wgc-sparse",
        }
    }

    /// Every stage, in the order a benchmark runs them.
    pub fn all() -> (stages: [CaptureStage; 6])
        ensures
            stages@ == spec_all_stages(),
    {
        [
            CaptureStage::Baseline,
            CaptureStage::Device,
            CaptureStage::IdleDuplication,
            CaptureStage::AcquireRelease,
            CaptureStage::Full,
            CaptureStage::WgcSparse,
        ]
    }
}

pub open spec fn spec_stage_description(stage: CaptureStage) -> Seq<char> {
    match stage {
        CaptureStage::Baseline => "no GPU objects created (control)"@,
        CaptureStage::Device => "D3D11 device only, no capture"@,
        CaptureStage::IdleDuplication => "duplication session held open, never acquired"@,
        CaptureStage::AcquireRelease => "acquire + release each frame, no copy or readback"@,
        CaptureStage::Full => "full production detection pipeline"@,
        CaptureStage::WgcSparse => "WindowsGraphicsCapture session + sampled readback"@,
    }
}

} // verus!
