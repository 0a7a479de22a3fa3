//! The two kinds of key the runtime reacts to.

use vstd::prelude::*;

use crate::hidapi::{HidApiListener, HidListenerState};
use crate::key_hook::{shift_consistent, KeyHook};
use crate::key_map::SharedFlags;
use crate::razer_key;
use crate::vkey;

verus! {

/// A key the built-in map can be looked up by: a Windows virtual key seen by
/// the keyboard hook, or a Razer special key read from the HID interface.
#[derive(Debug, PartialEq, Eq, Hash, Clone, Copy, Structural)]
pub enum KeyType {
    VKey(vkey::Key),
    RazerKey(razer_key::Key),
}

impl From<vkey::Key> for KeyType {
    fn from(key: vkey::Key) -> (k: Self) {
        KeyType::VKey(key)
    }
}

impl vstd::std_specs::convert::FromSpecImpl<vkey::Key> for KeyType {
    open spec fn obeys_from_spec() -> bool {
        true
    }

    open spec fn from_spec(key: vkey::Key) -> KeyType {
        KeyType::VKey(key)
    }
}

impl From<razer_key::Key> for KeyType {
    fn from(key: razer_key::Key) -> (k: Self) {
        KeyType::RazerKey(key)
    }
}

impl vstd::std_specs::convert::FromSpecImpl<razer_key::Key> for KeyType {
    open spec fn obeys_from_spec() -> bool {
        true
    }

    open spec fn from_spec(key: razer_key::Key) -> KeyType {
        KeyType::RazerKey(key)
    }
}

/// Stops both key sources: the keyboard hook, which forgets every modifier
/// it tracked, and the HID listeners, which forget a held Fn.
pub fn stop_keyboard_hooks(hook: &mut KeyHook, flags: &mut SharedFlags, listeners: &mut HidListenerState)
    ensures
        !final(hook).running,
        final(hook).shift_keys_down == 0,
        !final(flags).alt_pressed,
        !final(flags).shift_pressed,
        !final(flags).fn_pressed,
        final(flags).primary_multimedia_keys == old(flags).primary_multimedia_keys,
        final(flags).vapour_chamber == old(flags).vapour_chamber,
        shift_consistent(*final(hook), *final(flags)),
        !final(listeners).running,
{
    KeyHook::stop(hook, flags);
    HidApiListener::stop(listeners, flags);
}

} // verus!
