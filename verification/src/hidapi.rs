//! Reading Razer special keys from the keyboard's HID interfaces: which
//! interfaces to listen on, how a report is read, and what a key does.

use vstd::prelude::*;

use crate::binding::KeyAction;
use crate::custom_bindings::{last_entry_for, razer, ResolvedBindings};
use crate::error::AppError;
use crate::key_capture::{record_razer_key_code, KeyCapture};
use crate::key_map::SharedFlags;
use crate::text::{contains_text, contains_word};

verus! {

/// Razer's USB vendor id.
pub const RAZER_VID: u16 = 0x1532;

/// The report id special-key reports arrive under.
pub const SPECIAL_KEY_REPORT_ID: u8 = 0x04;

/// The key code reported while Fn goes down.
pub const FN_DOWN_CODE: u8 = 0x0a;

/// The key code reported for every special-key release, Fn's included.
pub const RELEASE_CODE: u8 = 0x00;

/// What one HID input report turned out to be.
#[derive(Debug, Clone, Copy, PartialEq, Eq, Structural)]
pub enum SpecialKeyReport {
    KeyCode(u8),
    TooShort { len: usize },
    UnexpectedReportId(u8),
}

pub open spec fn spec_parse_report(report: Seq<u8>) -> SpecialKeyReport {
    if report.len() == 0 {
        SpecialKeyReport::TooShort { len: 0 }
    } else if report[0] == SPECIAL_KEY_REPORT_ID {
        if report.len() >= 2 {
            SpecialKeyReport::KeyCode(report[1])
        } else {
            SpecialKeyReport::TooShort { len: 1 }
        }
    } else {
        SpecialKeyReport::UnexpectedReportId(report[0])
    }
}

/// Classifies a report: a special key's code, a special-key report too short
/// to carry one, or a report from some other interface.
pub fn parse_special_key_report(report: &[u8]) -> (parsed: SpecialKeyReport)
    ensures
        parsed == spec_parse_report(report@),
{
    if report.len() == 0 {
        SpecialKeyReport::TooShort { len: 0 }
    } else if report[0] == SPECIAL_KEY_REPORT_ID {
        if report.len() >= 2 {
            SpecialKeyReport::KeyCode(report[1])
        } else {
            SpecialKeyReport::TooShort { len: 1 }
        }
    } else {
        SpecialKeyReport::UnexpectedReportId(report[0])
    }
}

pub open spec fn denied() -> Seq<char> {
    seq!['d', 'e', 'n', 'i', 'e', 'd']
}

/// Whether an error message says access was denied.
fn mentions_denied(message: &String) -> (found: bool)
    ensures
        found == contains_word(message@, denied()),
{
    let found = contains_text(message.as_str(), "denied");
    proof {
        reveal_strlit("denied");
        assert("denied"@ =~= denied());
    }
    found
}

/// Whether an interface may be listened on, judged by a test read: one that
/// read, or failed for any reason other than access being denied.
pub fn interface_is_readable_or_not_denied(read_result: &Result<usize, String>) -> (ok: bool)
    ensures
        ok == match read_result {
            Ok(_) => true,
            Err(message) => !contains_word(message@, denied()),
        },
{
    match read_result {
        Ok(_) => true,
        Err(message) => !mentions_denied(message),
    }
}

/// Whether a HID device is one of this keyboard's interfaces.
pub fn is_listener_device(vendor_id: u16, product_id: u16, device_pid: u16) -> (b: bool)
    ensures
        b == (vendor_id == RAZER_VID && product_id == device_pid),
{
    vendor_id == RAZER_VID && product_id == device_pid
}

/// The listeners' shared state: whether they should keep reading. Whether
/// Fn is held is the key map's own flag ([`SharedFlags::fn_pressed`]), which
/// the listeners write and the map's conditions read.
#[derive(Clone, Copy, Debug, Default, PartialEq, Eq, Structural)]
pub struct HidListenerState {
    pub running: bool,
}

/// The HID special-key listener for one keyboard model.
#[derive(Clone, Copy, Debug, PartialEq, Eq, Structural)]
pub struct HidApiListener {
    pub device_pid: u16,
}

impl HidApiListener {
    pub fn new(device_pid: u16) -> (l: Self)
        ensures
            l.device_pid == device_pid,
    {
        HidApiListener { device_pid }
    }

    /// Claims the listeners for a start. Returns whether they were already
    /// running, in which case starting again does nothing.
    pub fn start(&self, state: &mut HidListenerState) -> (already_running: bool)
        ensures
            already_running == old(state).running,
            final(state).running,
    {
        let already = state.running;
        state.running = true;
        already
    }

    /// Concludes a start that opened `listener_count` listeners. With none
    /// open the keyboard cannot be read, the listeners are released and the
    /// start fails.
    pub fn finish_start(&self, state: &mut HidListenerState, listener_count: usize) -> (r: Result<
        usize,
        AppError,
    >)
        ensures
            listener_count == 0 ==> (r == Err::<usize, AppError>(AppError::NoInterfacesAccessible))
                && !final(state).running,
            listener_count > 0 ==> (r == Ok::<usize, AppError>(listener_count)) && (*final(state)
                == *old(state)),
    {
        if listener_count == 0 {
            state.running = false;
            return Err(AppError::NoInterfacesAccessible);
        }
        Ok(listener_count)
    }

    /// Concludes a start whose HID context could not be opened: the listeners
    /// are released and the start fails with the library's message. Fn is
    /// left as it was.
    pub fn abandon_start(&self, state: &mut HidListenerState, message: String) -> (r: Result<
        usize,
        AppError,
    >)
        ensures
            r == Err::<usize, AppError>(AppError::HidApi(message)),
            !final(state).running,
    {
        state.running = false;
        Err(AppError::HidApi(message))
    }

    /// Tells the listeners to stop and forgets any held Fn, so no Fn held
    /// now survives into a later start.
    pub fn stop(state: &mut HidListenerState, flags: &mut SharedFlags)
        ensures
            !final(state).running,
            *final(flags) == (SharedFlags { fn_pressed: false, ..*old(flags) }),
    {
        state.running = false;
        flags.fn_pressed = false;
    }
}

/// Records Fn. Returns whether this was a real transition: the release code
/// arrives for every special key, so only a change is worth telling the
/// settings window about.
pub fn set_fn_pressed(flags: &mut SharedFlags, pressed: bool) -> (changed: bool)
    ensures
        changed == (old(flags).fn_pressed != pressed),
        *final(flags) == (SharedFlags { fn_pressed: pressed, ..*old(flags) }),
{
    let changed = flags.fn_pressed != pressed;
    flags.fn_pressed = pressed;
    changed
}

/// What became of one special key.
pub enum SpecialKeyOutcome {
    /// Fn went down or up; `changed` says whether it was a transition.
    Fn { pressed: bool, changed: bool },
    /// An armed capture took the key for the window.
    Captured(u8),
    /// The key is bound; the action is to be run.
    Run(KeyAction),
    /// Nothing is bound to the key.
    Unmapped(u8),
}

/// Handles one special key: Fn's own codes update the Fn state, an armed
/// capture takes any other key, and otherwise the user's binding for it runs.
pub fn handle_razer_special_key(
    flags: &mut SharedFlags,
    capture: &mut KeyCapture,
    table: &ResolvedBindings,
    key_code: u8,
) -> (outcome: SpecialKeyOutcome)
    ensures
        key_code == FN_DOWN_CODE || key_code == RELEASE_CODE ==> {
            let pressed = key_code == FN_DOWN_CODE;
            &&& outcome == (SpecialKeyOutcome::Fn {
                pressed,
                changed: old(flags).fn_pressed != pressed,
            })
            &&& *final(flags) == (SharedFlags { fn_pressed: pressed, ..*old(flags) })
            &&& *final(capture) == *old(capture)
        },
        key_code != FN_DOWN_CODE && key_code != RELEASE_CODE ==> {
            &&& *final(flags) == *old(flags)
            &&& !final(capture).listening
            &&& old(capture).listening ==> outcome == SpecialKeyOutcome::Captured(key_code)
            &&& !old(capture).listening ==> match outcome {
                SpecialKeyOutcome::Run(a) => last_entry_for(table.razer_view(), key_code as u16)
                    == Some(a@),
                SpecialKeyOutcome::Unmapped(c) => c == key_code && last_entry_for(
                    table.razer_view(),
                    key_code as u16,
                ) is None,
                _ => false,
            }
        },
{
    if key_code == FN_DOWN_CODE {
        let changed = set_fn_pressed(flags, true);
        return SpecialKeyOutcome::Fn { pressed: true, changed };
    }
    if key_code == RELEASE_CODE {
        let changed = set_fn_pressed(flags, false);
        return SpecialKeyOutcome::Fn { pressed: false, changed };
    }
    if record_razer_key_code(capture, key_code) {
        return SpecialKeyOutcome::Captured(key_code);
    }
    match razer(table, key_code) {
        Some(action) => SpecialKeyOutcome::Run(action),
        None => SpecialKeyOutcome::Unmapped(key_code),
    }
}

} // verus!
