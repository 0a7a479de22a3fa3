//! The serialisable vocabulary a key can be bound to.
//!
//! Every variant names an action the runtime already knows how to perform, so
//! a binding round-trips through the configuration file and the settings
//! window without either side holding a closure.

use vstd::prelude::*;

use crate::text::{has_visible, is_not_blank};

verus! {

/// Bit positions in [`Chord::modifiers`].
pub const MOD_CTRL: u8 = 1;
pub const MOD_ALT: u8 = 2;
pub const MOD_SHIFT: u8 = 4;
pub const MOD_WIN: u8 = 8;

/// One keystroke: a Windows virtual-key code plus the modifiers held with it.
#[derive(Clone, Copy, Debug, Default, PartialEq, Eq, Structural)]
pub struct Chord {
    pub modifiers: u8,
    pub key: u16,
}

impl Chord {
    pub open spec fn spec_is_complete(self) -> bool {
        self.key != 0
    }

    /// A chord with no key to press is a half-finished row, not an action.
    pub fn is_complete(&self) -> (b: bool)
        ensures
            b == self.spec_is_complete(),
    {
        self.key != 0
    }
}

/// Device control actions that can be bound to a key.
#[derive(Clone, Copy, Debug, PartialEq, Eq, Hash, Structural)]
pub enum DeviceAction {
    CyclePerfMode,
    CycleRgbEffect,
    CycleRefreshRate,
    CycleBatteryLimit,
    ToggleUnderglow,
    KeyboardLightUp,
    KeyboardLightDown,
    ScreenBrightnessUp,
    ScreenBrightnessDown,
    ToggleMicMute,
    ToggleSpeakerMute,
    ToggleTrackpad,
    TogglePrimaryMultimediaKeys,
    CloseGpuApps,
}

/// Every device action, in the order the settings window lists them.
pub const DEVICE_ACTIONS: [DeviceAction; 14] = [
    DeviceAction::CyclePerfMode,
    DeviceAction::CycleRgbEffect,
    DeviceAction::CycleRefreshRate,
    DeviceAction::CycleBatteryLimit,
    DeviceAction::ToggleUnderglow,
    DeviceAction::KeyboardLightUp,
    DeviceAction::KeyboardLightDown,
    DeviceAction::ScreenBrightnessUp,
    DeviceAction::ScreenBrightnessDown,
    DeviceAction::ToggleMicMute,
    DeviceAction::ToggleSpeakerMute,
    DeviceAction::ToggleTrackpad,
    DeviceAction::TogglePrimaryMultimediaKeys,
    DeviceAction::CloseGpuApps,
];

/// The catalogue of device actions as a sequence, in window order.
pub open spec fn all_device_actions() -> Seq<DeviceAction> {
    seq![
        DeviceAction::CyclePerfMode,
        DeviceAction::CycleRgbEffect,
        DeviceAction::CycleRefreshRate,
        DeviceAction::CycleBatteryLimit,
        DeviceAction::ToggleUnderglow,
        DeviceAction::KeyboardLightUp,
        DeviceAction::KeyboardLightDown,
        DeviceAction::ScreenBrightnessUp,
        DeviceAction::ScreenBrightnessDown,
        DeviceAction::ToggleMicMute,
        DeviceAction::ToggleSpeakerMute,
        DeviceAction::ToggleTrackpad,
        DeviceAction::TogglePrimaryMultimediaKeys,
        DeviceAction::CloseGpuApps,
    ]
}

/// Whether the hardware an action drives is present, given whether this
/// model has the vapour chamber light.
pub open spec fn spec_is_available(action: DeviceAction, vapour_chamber: bool) -> bool {
    match action {
        DeviceAction::ToggleUnderglow => vapour_chamber,
        _ => true,
    }
}

/// The catalogue with every action the hardware cannot run taken out, the
/// rest left in catalogue order.
pub open spec fn offered_device_actions(vapour_chamber: bool) -> Seq<DeviceAction> {
    all_device_actions().filter(|a: DeviceAction| spec_is_available(a, vapour_chamber))
}

pub open spec fn spec_label(action: DeviceAction) -> Seq<char> {
    match action {
        DeviceAction::CyclePerfMode => "Cycle performance mode"@,
        DeviceAction::CycleRgbEffect => "Cycle lighting effect"@,
        DeviceAction::CycleRefreshRate => "Cycle refresh rate"@,
        DeviceAction::CycleBatteryLimit => "Cycle charge limit"@,
        DeviceAction::ToggleUnderglow => "Toggle vapour chamber light"@,
        DeviceAction::KeyboardLightUp => "Keyboard backlight up"@,
        DeviceAction::KeyboardLightDown => "Keyboard backlight down"@,
        DeviceAction::ScreenBrightnessUp => "Screen brightness up"@,
        DeviceAction::ScreenBrightnessDown => "Screen brightness down"@,
        DeviceAction::ToggleMicMute => "Toggle microphone mute"@,
        DeviceAction::ToggleSpeakerMute => "Toggle speaker mute"@,
        DeviceAction::ToggleTrackpad => "Toggle trackpad"@,
        DeviceAction::TogglePrimaryMultimediaKeys => "Toggle media keys on the top row"@,
        DeviceAction::CloseGpuApps => "Close GPU applications"@,
    }
}

/// The device actions this model can actually perform, in the order the
/// settings window lists them.
pub fn available_device_actions(vapour_chamber: bool) -> (offered: Vec<DeviceAction>)
    ensures
        offered@ == offered_device_actions(vapour_chamber),
{
    let ghost all = all_device_actions();
    let ghost pred = |a: DeviceAction| spec_is_available(a, vapour_chamber);
    let mut offered: Vec<DeviceAction> = Vec::new();
    let mut i: usize = 0;
    assert(DEVICE_ACTIONS@ =~= all);
    while i < 14
        invariant
            i <= 14,
            DEVICE_ACTIONS@ == all,
            all == all_device_actions(),
            pred == (|a: DeviceAction| spec_is_available(a, vapour_chamber)),
            offered@ == all.take(i as int).filter(pred),
        decreases 14 - i,
    {
        let action = DEVICE_ACTIONS[i];
        proof {
            assert(all.take(i as int + 1).drop_last() =~= all.take(i as int));
            reveal_with_fuel(Seq::filter, 1);
        }
        if action.is_available(vapour_chamber) {
            offered.push(action);
        }
        i = i + 1;
    }
    assert(all.take(14) =~= all);
    offered
}

impl DeviceAction {
    /// Whether the hardware this action drives is present on this model.
    pub fn is_available(self, vapour_chamber: bool) -> (b: bool)
        ensures
            b == spec_is_available(self, vapour_chamber),
    {
        match self {
            DeviceAction::ToggleUnderglow => vapour_chamber,
            _ => true,
        }
    }

    /// The label the settings window shows for this action.
    pub fn label(self) -> (s: &'static str)
        ensures
            s@ == spec_label(self),
    {
        match self {
            DeviceAction::CyclePerfMode => "Cycle performance mode",
            DeviceAction::CycleRgbEffect => "Cycle lighting effect",
            DeviceAction::CycleRefreshRate => "Cycle refresh rate",
            DeviceAction::CycleBatteryLimit => "Cycle charge limit",
            DeviceAction::ToggleUnderglow => "Toggle vapour chamber light",
            DeviceAction::KeyboardLightUp => "Keyboard backlight up",
            DeviceAction::KeyboardLightDown => "Keyboard backlight down",
            DeviceAction::ScreenBrightnessUp => "Screen brightness up",
            DeviceAction::ScreenBrightnessDown => "Screen brightness down",
            DeviceAction::ToggleMicMute => "Toggle microphone mute",
            DeviceAction::ToggleSpeakerMute => "Toggle speaker mute",
            DeviceAction::ToggleTrackpad => "Toggle trackpad",
            DeviceAction::TogglePrimaryMultimediaKeys => "Toggle media keys on the top row",
            DeviceAction::CloseGpuApps => "Close GPU applications",
        }
    }
}

/// What a bound key does when it is pressed.
#[derive(Clone, Debug, Default, PartialEq, Eq)]
pub enum KeyAction {
    /// Swallow the key and do nothing.
    #[default]
    Nothing,
    /// Send one keystroke.
    Key { chord: Chord },
    /// Send a sequence of keystrokes in order.
    Macro { steps: Vec<Chord> },
    Device { action: DeviceAction },
    /// Show the settings window, or hide it if it is already open.
    ToggleUi,
    LaunchApp { path: String, args: String, name: String },
    RunCommand { command: String },
    /// Replay a capture saved on the Command Lab page.
    ReplayCapture { name: String },
    /// Flip a custom control built on the Command Lab page.
    ToggleCustomControl { name: String },
}

/// The mathematical value of a key action: strings become their characters.
pub enum KeyActionView {
    Nothing,
    Key { chord: Chord },
    Macro { steps: Seq<Chord> },
    Device { action: DeviceAction },
    ToggleUi,
    LaunchApp { path: Seq<char>, args: Seq<char>, name: Seq<char> },
    RunCommand { command: Seq<char> },
    ReplayCapture { name: Seq<char> },
    ToggleCustomControl { name: Seq<char> },
}

impl View for KeyAction {
    type V = KeyActionView;

    open spec fn view(&self) -> KeyActionView {
        match self {
            KeyAction::Nothing => KeyActionView::Nothing,
            KeyAction::Key { chord } => KeyActionView::Key { chord: *chord },
            KeyAction::Macro { steps } => KeyActionView::Macro { steps: steps@ },
            KeyAction::Device { action } => KeyActionView::Device { action: *action },
            KeyAction::ToggleUi => KeyActionView::ToggleUi,
            KeyAction::LaunchApp { path, args, name } => KeyActionView::LaunchApp {
                path: path@,
                args: args@,
                name: name@,
            },
            KeyAction::RunCommand { command } => KeyActionView::RunCommand { command: command@ },
            KeyAction::ReplayCapture { name } => KeyActionView::ReplayCapture { name: name@ },
            KeyAction::ToggleCustomControl { name } => KeyActionView::ToggleCustomControl {
                name: name@,
            },
        }
    }
}

impl KeyActionView {
    /// Whether the action carries everything it needs to run.
    pub open spec fn is_complete(self) -> bool {
        match self {
            KeyActionView::Nothing | KeyActionView::ToggleUi | KeyActionView::Device { .. } => true,
            KeyActionView::Key { chord } => chord.spec_is_complete(),
            KeyActionView::Macro { steps } => steps.len() > 0 && forall|i: int|
                0 <= i < steps.len() ==> (#[trigger] steps[i]).spec_is_complete(),
            KeyActionView::LaunchApp { path, .. } => has_visible(path),
            KeyActionView::RunCommand { command } => has_visible(command),
            KeyActionView::ReplayCapture { name } => has_visible(name),
            KeyActionView::ToggleCustomControl { name } => has_visible(name),
        }
    }
}

/// Copies a list of chords.
pub fn copy_chords(steps: &Vec<Chord>) -> (copy: Vec<Chord>)
    ensures
        copy@ == steps@,
{
    let mut copy: Vec<Chord> = Vec::new();
    let mut i: usize = 0;
    while i < steps.len()
        invariant
            i <= steps.len(),
            copy@ == steps@.take(i as int),
        decreases steps.len() - i,
    {
        copy.push(steps[i]);
        i = i + 1;
    }
    assert(steps@.take(steps.len() as int) =~= steps@);
    copy
}

impl KeyAction {
    /// Whether the action carries everything it needs to run. An unfinished
    /// row is stored, so the window can show it again, but never dispatched.
    pub fn is_complete(&self) -> (b: bool)
        ensures
            b == self@.is_complete(),
    {
        match self {
            KeyAction::Nothing | KeyAction::ToggleUi | KeyAction::Device { .. } => true,
            KeyAction::Key { chord } => chord.is_complete(),
            KeyAction::Macro { steps } => {
                if steps.len() == 0 {
                    return false;
                }
                let mut i: usize = 0;
                while i < steps.len()
                    invariant
                        i <= steps.len(),
                        self@ == (KeyActionView::Macro { steps: steps@ }),
                        forall|j: int| 0 <= j < i ==> (#[trigger] steps@[j]).spec_is_complete(),
                    decreases steps.len() - i,
                {
                    if !steps[i].is_complete() {
                        assert(!steps@[i as int].spec_is_complete());
                        return false;
                    }
                    i = i + 1;
                }
                true
            },
            KeyAction::LaunchApp { path, .. } => is_not_blank(path.as_str()),
            KeyAction::RunCommand { command } => is_not_blank(command.as_str()),
            KeyAction::ReplayCapture { name } => is_not_blank(name.as_str()),
            KeyAction::ToggleCustomControl { name } => is_not_blank(name.as_str()),
        }
    }

    /// An exact copy of the action.
    pub fn duplicate(&self) -> (copy: KeyAction)
        ensures
            copy@ == self@,
    {
        match self {
            KeyAction::Nothing => KeyAction::Nothing,
            KeyAction::Key { chord } => KeyAction::Key { chord: *chord },
            KeyAction::Macro { steps } => KeyAction::Macro { steps: copy_chords(steps) },
            KeyAction::Device { action } => KeyAction::Device { action: *action },
            KeyAction::ToggleUi => KeyAction::ToggleUi,
            KeyAction::LaunchApp { path, args, name } => KeyAction::LaunchApp {
                path: path.clone(),
                args: args.clone(),
                name: name.clone(),
            },
            KeyAction::RunCommand { command } => KeyAction::RunCommand { command: command.clone() },
            KeyAction::ReplayCapture { name } => KeyAction::ReplayCapture { name: name.clone() },
            KeyAction::ToggleCustomControl { name } => KeyAction::ToggleCustomControl {
                name: name.clone(),
            },
        }
    }
}

/// One row of the Keys page: the key, the user's label for it, and the action.
#[derive(Clone, Debug, Default, PartialEq, Eq)]
pub struct KeyBinding {
    /// A Razer special-key code, or a Windows virtual-key code for Hypershift.
    pub key_code: u16,
    pub label: String,
    pub action: KeyAction,
}

/// Both tables, in the order the window shows them.
#[derive(Clone, Debug, Default, PartialEq, Eq)]
pub struct KeyBindings {
    pub razer: Vec<KeyBinding>,
    pub hypershift: Vec<KeyBinding>,
}

} // verus!
