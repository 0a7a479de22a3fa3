//! Which audio endpoints the app works with, and the decisions around them:
//! toggling mute, joining the COM apartment, following the default device and
//! recognising Bluetooth playback.

use vstd::prelude::*;

use crate::text::{ascii_upper, contains_text, contains_word, to_ascii_uppercase};

verus! {

/// The two endpoints the app watches.
#[derive(Clone, Copy, Debug, PartialEq, Eq, Structural)]
pub enum AudioType {
    Speakers,
    Mic,
}

/// The direction audio flows through an endpoint.
#[derive(Clone, Copy, Debug, PartialEq, Eq, Structural)]
pub enum DataFlow {
    Render,
    Capture,
}

/// The role an endpoint is the default for.
#[derive(Clone, Copy, Debug, PartialEq, Eq, Structural)]
pub enum EndpointRole {
    Console,
    Communications,
}

/// How the default endpoint for an `AudioType` is looked up.
#[derive(Clone, Copy, Debug, PartialEq, Eq, Structural)]
pub struct EndpointSelection {
    pub direction: DataFlow,
    pub role: EndpointRole,
}

impl AudioType {
    /// Speakers are the default console render device; the microphone is the
    /// default communications capture device.
    pub fn endpoint_selection(self) -> (selection: EndpointSelection)
        ensures
            selection == (match self {
                AudioType::Mic => EndpointSelection {
                    direction: DataFlow::Capture,
                    role: EndpointRole::Communications,
                },
                AudioType::Speakers => EndpointSelection {
                    direction: DataFlow::Render,
                    role: EndpointRole::Console,
                },
            }),
    {
        match self {
            AudioType::Mic => EndpointSelection {
                direction: DataFlow::Capture,
                role: EndpointRole::Communications,
            },
            AudioType::Speakers => EndpointSelection {
                direction: DataFlow::Render,
                role: EndpointRole::Console,
            },
        }
    }
}

/// What toggling an endpoint's mute does: the state to set, and the OSD to
/// raise (only the microphone has one).
#[derive(Clone, Copy, Debug, PartialEq, Eq, Structural)]
pub struct MuteToggle {
    pub new_mute: bool,
    pub mic_osd: Option<bool>,
}

pub fn mute_toggle(io: AudioType, currently_muted: bool) -> (toggle: MuteToggle)
    ensures
        toggle.new_mute == !currently_muted,
        toggle.mic_osd == (if io == AudioType::Mic { Some(!currently_muted) } else { None::<bool> }),
{
    let new_mute = !currently_muted;
    MuteToggle { new_mute, mic_osd: if io == AudioType::Mic { Some(new_mute) } else { None } }
}

/// The result COM reports when the thread already joined an apartment of the
/// other kind.
pub const RPC_E_CHANGED_MODE: i32 = -2147417850;

/// Joining the multithreaded apartment: any success means this thread joined
/// it and must leave it again (`Ok(true)`); an apartment of the other kind is
/// reused as it is (`Ok(false)`); any other failure is the error.
pub fn apartment_ownership(hresult: i32) -> (owns: Result<bool, i32>)
    ensures
        owns == (if hresult >= 0 {
            Ok::<bool, i32>(true)
        } else if hresult == RPC_E_CHANGED_MODE {
            Ok::<bool, i32>(false)
        } else {
            Err::<bool, i32>(hresult)
        }),
{
    if hresult >= 0 {
        Ok(true)
    } else if hresult == RPC_E_CHANGED_MODE {
        Ok(false)
    } else {
        Err(hresult)
    }
}

/// Windows reports default-device changes for every flow and role; only the
/// pair a watcher was built for concerns it.
pub fn is_watched_change(selection: EndpointSelection, flow: DataFlow, role: EndpointRole) -> (watched: bool)
    ensures
        watched == (flow == selection.direction && role == selection.role),
{
    flow == selection.direction && role == selection.role
}

/// Whether an endpoint's bus, ignoring ASCII case, names Bluetooth.
pub open spec fn spec_is_bluetooth_bus(bus: Seq<char>) -> bool {
    let upper = bus.map_values(|c: char| ascii_upper(c));
    contains_word(upper, "BTH"@) || contains_word(upper, "BLUETOOTH"@)
}

pub fn is_bluetooth_bus(bus: &str) -> (bluetooth: bool)
    ensures
        bluetooth == spec_is_bluetooth_bus(bus@),
{
    let upper = to_ascii_uppercase(bus);
    contains_text(upper.as_str(), "BTH") || contains_text(upper.as_str(), "BLUETOOTH")
}

} // verus!
