use blade_controlhub::key_hook::{
    handle_key_event, update_shift_state, KeyHook, LEFT_SHIFT_MASK, RIGHT_SHIFT_MASK, VK_MENU,
};
use blade_controlhub::key_map::{BuiltinAction, SharedFlags};
use blade_controlhub::input::stop_keyboard_hooks;
use blade_controlhub::hidapi::HidListenerState;

#[test]
fn stop_clears_modifier_state() {
    let mut flags = SharedFlags::default();
    flags.alt_pressed = true;
    flags.shift_pressed = true;
    let mut hook = KeyHook { running: true, shift_keys_down: 1 };

    KeyHook::stop(&mut hook, &mut flags);

    assert!(!hook.running);
    assert!(!flags.alt_pressed);
    assert!(!flags.shift_pressed);
}

#[test]
fn stopped_hook_does_not_handle_keys() {
    let mut flags = SharedFlags::default();
    let mut hook = KeyHook { running: false, shift_keys_down: 0 };

    assert!(handle_key_event(&mut hook, &mut flags, VK_MENU, true).is_none());
    assert!(!flags.alt_pressed);
}

#[test]
fn left_and_right_shift_keys_set_the_cycle_reverse_modifier() {
    let mut flags = SharedFlags::default();
    let mut hook = KeyHook { running: true, shift_keys_down: 0 };
    flags.shift_pressed = false;

    update_shift_state(&mut hook, &mut flags, LEFT_SHIFT_MASK, true);
    assert!(flags.shift_pressed);

    update_shift_state(&mut hook, &mut flags, RIGHT_SHIFT_MASK, true);
    update_shift_state(&mut hook, &mut flags, LEFT_SHIFT_MASK, false);
    assert!(flags.shift_pressed);

    update_shift_state(&mut hook, &mut flags, RIGHT_SHIFT_MASK, false);
    assert!(!flags.shift_pressed);
}

#[test]
fn a_running_hook_tracks_alt() {
    let mut flags = SharedFlags::default();
    let mut hook = KeyHook { running: true, shift_keys_down: 0 };

    assert!(handle_key_event(&mut hook, &mut flags, VK_MENU, true).is_none());
    assert!(flags.alt_pressed);
    assert!(handle_key_event(&mut hook, &mut flags, VK_MENU, false).is_none());
    assert!(!flags.alt_pressed);
}

#[test]
fn fn_and_a_function_key_fire_the_built_in_action() {
    let mut flags = SharedFlags::default();
    flags.fn_pressed = true;
    let mut hook = KeyHook { running: true, shift_keys_down: 0 };

    // Fn+P cycles the performance mode.
    assert_eq!(handle_key_event(&mut hook, &mut flags, 0x50, true), Some(BuiltinAction::CyclePerfMode));
    // Without Fn nothing fires.
    flags.fn_pressed = false;
    assert_eq!(handle_key_event(&mut hook, &mut flags, 0x50, true), None);
}

#[test]
fn stopping_the_key_sources_clears_every_held_modifier() {
    let mut flags = SharedFlags::default();
    flags.alt_pressed = true;
    flags.shift_pressed = true;
    flags.fn_pressed = true;
    let mut hook = KeyHook { running: true, shift_keys_down: 3 };
    let mut listeners = HidListenerState { running: true };

    stop_keyboard_hooks(&mut hook, &mut flags, &mut listeners);

    assert!(!hook.running);
    assert_eq!(hook.shift_keys_down, 0);
    assert!(!flags.alt_pressed && !flags.shift_pressed);
    assert!(!flags.fn_pressed, "a held Fn does not survive into a later start");
    assert!(!listeners.running);
}
