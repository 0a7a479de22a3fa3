//! Capture of Razer special keys for the Keys page.
//!
//! These keys never reach Windows as virtual key codes, so the window cannot
//! listen for them itself. While a capture is armed the HID reader hands the
//! code to the window instead of running its mapped action.

use vstd::prelude::*;

verus! {

/// The shared "a key is being captured" flag.
#[derive(Clone, Copy, Debug, Default, PartialEq, Eq, Structural)]
pub struct KeyCapture {
    pub listening: bool,
}

/// A captured Razer key, as the window receives it.
#[derive(Clone, Copy, Debug, PartialEq, Eq, Structural)]
pub struct CapturedRazerKey {
    pub key_code: u8,
}

/// Arms capture: the next Razer special key goes to the window instead of
/// triggering its mapped action.
pub fn begin_razer_key_capture(capture: &mut KeyCapture)
    ensures
        final(capture).listening,
{
    capture.listening = true;
}

/// Disarms capture, restoring normal key handling.
pub fn stop_razer_key_capture(capture: &mut KeyCapture)
    ensures
        !final(capture).listening,
{
    capture.listening = false;
}

/// Offers a Razer special key to an armed capture. Returns whether the key
/// was consumed; a consumed key disarms the capture, so exactly one key is
/// captured per arming and a key being bound never also runs its action.
pub fn record_razer_key_code(capture: &mut KeyCapture, key_code: u8) -> (consumed: bool)
    ensures
        consumed == old(capture).listening,
        !final(capture).listening,
{
    if !capture.listening {
        return false;
    }
    stop_razer_key_capture(capture);
    true
}

} // verus!
