//! What the low-level keyboard hook decides for each key event: which
//! modifier state it updates, and whether the built-in map takes the key.

use vstd::prelude::*;

use crate::input::KeyType;
use crate::key_map::{builtin_binding, builtin_key_event, conditions_hold, BuiltinAction, SharedFlags};
use crate::vkey;

verus! {

pub const VK_SHIFT: u8 = 0x10;
pub const VK_LSHIFT: u8 = 0xA0;
pub const VK_RSHIFT: u8 = 0xA1;
pub const VK_MENU: u8 = 0x12;
pub const LEFT_SHIFT_MASK: u8 = 1;
pub const RIGHT_SHIFT_MASK: u8 = 2;

/// The hook's own state: whether it is installed, and which shift keys are
/// down (one bit per side; every bit when only the generic shift code is
/// seen).
#[derive(Clone, Copy, Debug, Default, PartialEq, Eq, Structural)]
pub struct KeyHook {
    pub running: bool,
    pub shift_keys_down: u8,
}

/// The shift modifier reads as held exactly while some shift key is down.
pub open spec fn shift_consistent(hook: KeyHook, flags: SharedFlags) -> bool {
    flags.shift_pressed == (hook.shift_keys_down != 0)
}

/// The built-in action a key press fires under the given key state, if any.
pub open spec fn fired_action(key_code: u8, flags: SharedFlags) -> Option<BuiltinAction> {
    match builtin_binding(KeyType::VKey(vkey::key_for_code(key_code))) {
        Some((action, condition)) => if conditions_hold(condition, flags) {
            Some(action)
        } else {
            None
        },
        None => None,
    }
}

impl KeyHook {
    /// Claims the hook for a start. Returns whether it was already running.
    pub fn start(hook: &mut KeyHook) -> (already_running: bool)
        ensures
            already_running == old(hook).running,
            final(hook).running,
            final(hook).shift_keys_down == old(hook).shift_keys_down,
    {
        let already = hook.running;
        hook.running = true;
        already
    }

    /// Stops the hook and forgets every modifier it was tracking, so a key
    /// held across a restart cannot leave Alt or Shift stuck.
    pub fn stop(hook: &mut KeyHook, flags: &mut SharedFlags)
        ensures
            !final(hook).running,
            final(hook).shift_keys_down == 0,
            !final(flags).alt_pressed,
            !final(flags).shift_pressed,
            final(flags).fn_pressed == old(flags).fn_pressed,
            final(flags).primary_multimedia_keys == old(flags).primary_multimedia_keys,
            final(flags).vapour_chamber == old(flags).vapour_chamber,
            shift_consistent(*final(hook), *final(flags)),
    {
        hook.running = false;
        flags.alt_pressed = false;
        flags.shift_pressed = false;
        hook.shift_keys_down = 0;
    }
}

/// Records one side's shift key going down or up; the modifier is held while
/// either side is.
pub fn update_shift_state(hook: &mut KeyHook, flags: &mut SharedFlags, mask: u8, pressed: bool)
    ensures
        final(hook).shift_keys_down == (if pressed {
            old(hook).shift_keys_down | mask
        } else {
            old(hook).shift_keys_down & !mask
        }),
        final(hook).running == old(hook).running,
        *final(flags) == (SharedFlags {
            shift_pressed: final(hook).shift_keys_down != 0,
            ..*old(flags)
        }),
        shift_consistent(*final(hook), *final(flags)),
{
    let previous = hook.shift_keys_down;
    let current = if pressed {
        previous | mask
    } else {
        previous & !mask
    };
    hook.shift_keys_down = current;
    flags.shift_pressed = current != 0;
}

/// Handles one key event from the hook. Modifier keys update the shared
/// state; a press the built-in map fires on is taken, and its action is
/// returned for the runtime to perform. A stopped hook handles nothing.
pub fn handle_key_event(hook: &mut KeyHook, flags: &mut SharedFlags, key_code: u8, pressed: bool) -> (fired: Option<BuiltinAction>)
    ensures
        !old(hook).running ==> fired is None && *final(hook) == *old(hook) && *final(flags)
            == *old(flags),
        old(hook).running ==> {
            &&& key_code == VK_MENU ==> *final(flags) == (SharedFlags {
                alt_pressed: pressed,
                ..*old(flags)
            }) && *final(hook) == *old(hook)
            &&& key_code == VK_LSHIFT ==> final(hook).shift_keys_down == (if pressed {
                old(hook).shift_keys_down | LEFT_SHIFT_MASK
            } else {
                old(hook).shift_keys_down & !LEFT_SHIFT_MASK
            })
            &&& key_code == VK_RSHIFT ==> final(hook).shift_keys_down == (if pressed {
                old(hook).shift_keys_down | RIGHT_SHIFT_MASK
            } else {
                old(hook).shift_keys_down & !RIGHT_SHIFT_MASK
            })
            &&& key_code == VK_SHIFT ==> final(hook).shift_keys_down == (if pressed {
                255u8
            } else {
                0u8
            })
            &&& (key_code == VK_LSHIFT || key_code == VK_RSHIFT || key_code == VK_SHIFT)
                ==> *final(flags) == (SharedFlags {
                shift_pressed: final(hook).shift_keys_down != 0,
                ..*old(flags)
            })
            &&& !(key_code == VK_MENU || key_code == VK_LSHIFT || key_code == VK_RSHIFT || key_code
                == VK_SHIFT) ==> *final(flags) == *old(flags) && *final(hook) == *old(hook)
            &&& final(hook).running
            &&& fired == (if pressed {
                fired_action(key_code, *final(flags))
            } else {
                None
            })
            &&& shift_consistent(*old(hook), *old(flags)) ==> shift_consistent(
                *final(hook),
                *final(flags),
            )
        },
{
    if !hook.running {
        return None;
    }
    if key_code == VK_MENU {
        flags.alt_pressed = pressed;
    } else if key_code == VK_LSHIFT {
        update_shift_state(hook, flags, LEFT_SHIFT_MASK, pressed);
    } else if key_code == VK_RSHIFT {
        update_shift_state(hook, flags, RIGHT_SHIFT_MASK, pressed);
    } else if key_code == VK_SHIFT {
        hook.shift_keys_down = if pressed {
            255
        } else {
            0
        };
        flags.shift_pressed = pressed;
    }
    if !pressed {
        return None;
    }
    let key = KeyType::VKey(vkey::Key::from(key_code));
    match builtin_key_event(key) {
        Some(entry) => {
            if entry.execute(flags) {
                Some(entry.action)
            } else {
                None
            }
        },
        None => None,
    }
}

/// With shift tracked by side, the modifier stays held until the last shift
/// key is released, whichever order the two sides go down and up in.
pub proof fn shift_held_until_both_sides_release(down: u8)
    ensures
        ((down | LEFT_SHIFT_MASK) | RIGHT_SHIFT_MASK) & !LEFT_SHIFT_MASK != 0,
        (down & !3u8) == 0 ==> ((((down | LEFT_SHIFT_MASK) | RIGHT_SHIFT_MASK) & !LEFT_SHIFT_MASK)
            & !RIGHT_SHIFT_MASK) == 0,
        ((down | RIGHT_SHIFT_MASK) | LEFT_SHIFT_MASK) & !RIGHT_SHIFT_MASK != 0,
{
    assert(((down | 1u8) | 2u8) & !1u8 != 0) by (bit_vector);
    assert((down & !3u8) == 0 ==> ((((down | 1u8) | 2u8) & !1u8) & !2u8) == 0) by (bit_vector);
    assert(((down | 2u8) | 1u8) & !2u8 != 0) by (bit_vector);
}

} // verus!
