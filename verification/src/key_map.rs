//! The built-in key map: what the Fn layer and Razer's special keys do
//! before the user rebinds anything.
//!
//! Each entry pairs an action with the conditions under which it runs. The
//! conditions read the shared key-state flags; the runtime performs the
//! action when they all hold and lets the key through otherwise.

use vstd::prelude::*;

use crate::custom_bindings::SynthKey;
use crate::input::KeyType;
use crate::razer_key;
use crate::vkey;

verus! {

/// The process-wide key state the built-in map's conditions read.
#[derive(Clone, Copy, Debug, Default, PartialEq, Eq, Structural)]
pub struct SharedFlags {
    pub fn_pressed: bool,
    pub alt_pressed: bool,
    pub shift_pressed: bool,
    /// Whether the top row sends media actions without Fn.
    pub primary_multimedia_keys: bool,
    /// Whether this model has the vapour chamber light.
    pub vapour_chamber: bool,
}

/// One of the shared flags.
#[derive(Clone, Copy, Debug, PartialEq, Eq, Structural)]
pub enum Flag {
    FnPressed,
    AltPressed,
    ShiftPressed,
    PrimaryMultimediaKeys,
    VapourChamber,
}

impl SharedFlags {
    pub open spec fn get(self, flag: Flag) -> bool {
        match flag {
            Flag::FnPressed => self.fn_pressed,
            Flag::AltPressed => self.alt_pressed,
            Flag::ShiftPressed => self.shift_pressed,
            Flag::PrimaryMultimediaKeys => self.primary_multimedia_keys,
            Flag::VapourChamber => self.vapour_chamber,
        }
    }

    pub fn read(&self, flag: Flag) -> (value: bool)
        ensures
            value == self.get(flag),
    {
        match flag {
            Flag::FnPressed => self.fn_pressed,
            Flag::AltPressed => self.alt_pressed,
            Flag::ShiftPressed => self.shift_pressed,
            Flag::PrimaryMultimediaKeys => self.primary_multimedia_keys,
            Flag::VapourChamber => self.vapour_chamber,
        }
    }
}

/// One condition of a built-in binding.
#[derive(Clone, Copy, Debug, PartialEq, Eq, Structural)]
pub enum Source {
    IsTrue(Flag),
    IsFalse(Flag),
    /// Exactly one of the two flags is set.
    IsXOR(Flag, Flag),
}

impl Source {
    pub open spec fn holds(self, flags: SharedFlags) -> bool {
        match self {
            Source::IsTrue(f) => flags.get(f),
            Source::IsFalse(f) => !flags.get(f),
            Source::IsXOR(a, b) => flags.get(a) != flags.get(b),
        }
    }

    pub fn eval(&self, flags: &SharedFlags) -> (b: bool)
        ensures
            b == self.holds(*flags),
    {
        match self {
            Source::IsTrue(f) => flags.read(*f),
            Source::IsFalse(f) => !flags.read(*f),
            Source::IsXOR(a, b) => flags.read(*a) != flags.read(*b),
        }
    }
}

/// A fixed keystroke the built-in map synthesizes.
#[derive(Clone, Copy, Debug, PartialEq, Eq, Structural)]
pub enum Combo {
    VolumeMute,
    VolumeDown,
    VolumeUp,
    ProjectScreen,
    PreviousTrack,
    PlayPause,
    NextTrack,
    PrintScreen,
    Home,
    Up,
    PageUp,
    Left,
    Right,
    End,
    Down,
    PageDown,
}

pub open spec fn spec_combo_keys(combo: Combo) -> Seq<SynthKey> {
    match combo {
        Combo::VolumeMute => seq![SynthKey::Code(173)],
        Combo::VolumeDown => seq![SynthKey::Code(174)],
        Combo::VolumeUp => seq![SynthKey::Code(175)],
        Combo::ProjectScreen => seq![SynthKey::MetaLeft, SynthKey::KeyP],
        Combo::PreviousTrack => seq![SynthKey::Code(177)],
        Combo::PlayPause => seq![SynthKey::Code(179)],
        Combo::NextTrack => seq![SynthKey::Code(176)],
        Combo::PrintScreen => seq![SynthKey::PrintScreen],
        Combo::Home => seq![SynthKey::Code(36)],
        Combo::Up => seq![SynthKey::Code(38)],
        Combo::PageUp => seq![SynthKey::Code(33)],
        Combo::Left => seq![SynthKey::Code(37)],
        Combo::Right => seq![SynthKey::Code(39)],
        Combo::End => seq![SynthKey::Code(35)],
        Combo::Down => seq![SynthKey::Code(40)],
        Combo::PageDown => seq![SynthKey::Code(34)],
    }
}

/// The media combos send the Windows media virtual keys they are named
/// after (VK_VOLUME_MUTE 0xAD, VK_VOLUME_DOWN 0xAE, VK_VOLUME_UP 0xAF,
/// VK_MEDIA_NEXT_TRACK 0xB0, VK_MEDIA_PREV_TRACK 0xB1, VK_MEDIA_PLAY_PAUSE
/// 0xB3), one key each; the navigation combos send VK_PRIOR 0x21 through
/// VK_DOWN 0x28; and no two combos send the same keys.
pub proof fn each_combo_sends_its_own_keys(a: Combo, b: Combo)
    ensures
        spec_combo_keys(Combo::VolumeMute) == seq![SynthKey::Code(0xAD)],
        spec_combo_keys(Combo::VolumeDown) == seq![SynthKey::Code(0xAE)],
        spec_combo_keys(Combo::VolumeUp) == seq![SynthKey::Code(0xAF)],
        spec_combo_keys(Combo::NextTrack) == seq![SynthKey::Code(0xB0)],
        spec_combo_keys(Combo::PreviousTrack) == seq![SynthKey::Code(0xB1)],
        spec_combo_keys(Combo::PlayPause) == seq![SynthKey::Code(0xB3)],
        spec_combo_keys(Combo::PageUp) == seq![SynthKey::Code(0x21)],
        spec_combo_keys(Combo::PageDown) == seq![SynthKey::Code(0x22)],
        spec_combo_keys(Combo::End) == seq![SynthKey::Code(0x23)],
        spec_combo_keys(Combo::Home) == seq![SynthKey::Code(0x24)],
        spec_combo_keys(Combo::Left) == seq![SynthKey::Code(0x25)],
        spec_combo_keys(Combo::Up) == seq![SynthKey::Code(0x26)],
        spec_combo_keys(Combo::Right) == seq![SynthKey::Code(0x27)],
        spec_combo_keys(Combo::Down) == seq![SynthKey::Code(0x28)],
        spec_combo_keys(Combo::ProjectScreen) == seq![SynthKey::MetaLeft, SynthKey::KeyP],
        spec_combo_keys(Combo::PrintScreen) == seq![SynthKey::PrintScreen],
        a != b ==> spec_combo_keys(a) != spec_combo_keys(b),
{
    if a != b && spec_combo_keys(a) == spec_combo_keys(b) {
        assert(spec_combo_keys(a).len() == spec_combo_keys(b).len());
        assert(spec_combo_keys(a)[0] == spec_combo_keys(b)[0]);
        if spec_combo_keys(a).len() > 1 {
            assert(spec_combo_keys(a)[1] == spec_combo_keys(b)[1]);
        }
    }
}

/// The keys a combo presses, in press order.
pub fn combo_keys(combo: Combo) -> (keys: Vec<SynthKey>)
    ensures
        keys@ == spec_combo_keys(combo),
{
    let keys = match combo {
        Combo::VolumeMute => vec![SynthKey::Code(173)],
        Combo::VolumeDown => vec![SynthKey::Code(174)],
        Combo::VolumeUp => vec![SynthKey::Code(175)],
        Combo::ProjectScreen => vec![SynthKey::MetaLeft, SynthKey::KeyP],
        Combo::PreviousTrack => vec![SynthKey::Code(177)],
        Combo::PlayPause => vec![SynthKey::Code(179)],
        Combo::NextTrack => vec![SynthKey::Code(176)],
        Combo::PrintScreen => vec![SynthKey::PrintScreen],
        Combo::Home => vec![SynthKey::Code(36)],
        Combo::Up => vec![SynthKey::Code(38)],
        Combo::PageUp => vec![SynthKey::Code(33)],
        Combo::Left => vec![SynthKey::Code(37)],
        Combo::Right => vec![SynthKey::Code(39)],
        Combo::End => vec![SynthKey::Code(35)],
        Combo::Down => vec![SynthKey::Code(40)],
        Combo::PageDown => vec![SynthKey::Code(34)],
    };
    assert(keys@ =~= spec_combo_keys(combo));
    keys
}

/// One synthesized key event.
#[derive(Clone, Copy, Debug, PartialEq, Eq, Structural)]
pub enum KeyEvent {
    Press(SynthKey),
    Release(SynthKey),
}

/// The events a combo sends: every key pressed in order, then every key
/// released in reverse, so modifiers wrap the key they apply to.
pub open spec fn spec_combo_events(keys: Seq<SynthKey>) -> Seq<KeyEvent> {
    keys.map_values(|k: SynthKey| KeyEvent::Press(k)) + keys.reverse().map_values(
        |k: SynthKey| KeyEvent::Release(k),
    )
}

/// A keystroke to synthesize.
pub struct KeyCombo {
    pub keys: Vec<SynthKey>,
}

impl KeyCombo {
    pub fn new(input: &[SynthKey]) -> (combo: Self)
        ensures
            combo.keys@ == input@,
    {
        let mut keys: Vec<SynthKey> = Vec::new();
        let mut i: usize = 0;
        while i < input.len()
            invariant
                i <= input@.len(),
                keys@ =~= input@.take(i as int),
            decreases input.len() - i,
        {
            keys.push(input[i]);
            i += 1;
            assert(keys@ =~= input@.take(i as int));
        }
        assert(input@.take(input@.len() as int) =~= input@);
        KeyCombo { keys }
    }

    /// The events to send for the combo.
    pub fn events(&self) -> (events: Vec<KeyEvent>)
        ensures
            events@ == spec_combo_events(self.keys@),
    {
        let n = self.keys.len();
        let mut events: Vec<KeyEvent> = Vec::new();
        let mut i: usize = 0;
        while i < n
            invariant
                n == self.keys@.len(),
                i <= n,
                events@ =~= self.keys@.take(i as int).map_values(|k: SynthKey| KeyEvent::Press(k)),
            decreases n - i,
        {
            events.push(KeyEvent::Press(self.keys[i]));
            i += 1;
            assert(events@ =~= self.keys@.take(i as int).map_values(|k: SynthKey| KeyEvent::Press(k)));
        }
        assert(self.keys@.take(n as int) =~= self.keys@);
        let ghost presses = events@;
        let mut j: usize = n;
        while j > 0
            invariant
                n == self.keys@.len(),
                j <= n,
                presses == self.keys@.map_values(|k: SynthKey| KeyEvent::Press(k)),
                events@ =~= presses + self.keys@.reverse().take((n - j) as int).map_values(
                    |k: SynthKey| KeyEvent::Release(k),
                ),
            decreases j,
        {
            j -= 1;
            events.push(KeyEvent::Release(self.keys[j]));
            assert(self.keys@.reverse()[(n - j - 1) as int] == self.keys@[j as int]);
            assert(events@ =~= presses + self.keys@.reverse().take((n - j) as int).map_values(
                |k: SynthKey| KeyEvent::Release(k),
            ));
        }
        assert(self.keys@.reverse().take(n as int) =~= self.keys@.reverse());
        events
    }
}

/// What a built-in binding does once its conditions hold.
#[derive(Clone, Copy, Debug, PartialEq, Eq, Structural)]
pub enum BuiltinAction {
    CycleBatteryLimit,
    CyclePerfMode,
    CycleRefreshRate,
    ToggleTrackpad,
    ToggleVapourChamber,
    SendKeys(Combo),
    AdjustScreenBrightness(i8),
    KeyboardLightDown,
    KeyboardLightUp,
    ToggleMicMute,
    CycleRgbMode,
}

/// A built-in binding: an action and the conditions it runs under.
pub struct KeyEventAction {
    pub action: BuiltinAction,
    pub condition: Vec<Source>,
}

/// Whether every condition holds.
pub open spec fn conditions_hold(condition: Seq<Source>, flags: SharedFlags) -> bool {
    forall|i: int| 0 <= i < condition.len() ==> (#[trigger] condition[i]).holds(flags)
}

impl KeyEventAction {
    pub fn new(action: BuiltinAction, condition: Vec<Source>) -> (a: KeyEventAction)
        ensures
            a.action == action,
            a.condition@ == condition@,
    {
        KeyEventAction { action, condition }
    }

    /// Whether the binding fires under the given key state. The runtime
    /// performs the action exactly when this is true.
    pub fn execute(&self, flags: &SharedFlags) -> (fires: bool)
        ensures
            fires == conditions_hold(self.condition@, *flags),
    {
        let mut i: usize = 0;
        while i < self.condition.len()
            invariant
                i <= self.condition.len(),
                forall|j: int| 0 <= j < i ==> (#[trigger] self.condition@[j]).holds(*flags),
            decreases self.condition.len() - i,
        {
            if !self.condition[i].eval(flags) {
                assert(!self.condition@[i as int].holds(*flags));
                return false;
            }
            i = i + 1;
        }
        true
    }
}

/// The built-in map as a function: the action and conditions bound to a
/// key, if any.
///
/// The top row's media actions swap with plain function keys by the
/// "media keys on the top row" setting, so they fire when exactly one of
/// that setting and Fn holds, and never with Alt. The vapour chamber light
/// is only lit where there is one; elsewhere Fn+V reaches Windows.
pub open spec fn builtin_binding(key: KeyType) -> Option<(BuiltinAction, Seq<Source>)> {
    match key {
        KeyType::VKey(vkey::Key::B) => Some((BuiltinAction::CycleBatteryLimit, seq![Source::IsTrue(Flag::FnPressed)])),
        KeyType::VKey(vkey::Key::P) => Some((BuiltinAction::CyclePerfMode, seq![Source::IsTrue(Flag::FnPressed)])),
        KeyType::VKey(vkey::Key::R) => Some((BuiltinAction::CycleRefreshRate, seq![Source::IsTrue(Flag::FnPressed)])),
        KeyType::VKey(vkey::Key::T) => Some((BuiltinAction::ToggleTrackpad, seq![Source::IsTrue(Flag::FnPressed)])),
        KeyType::VKey(vkey::Key::V) => Some((BuiltinAction::ToggleVapourChamber, seq![Source::IsTrue(Flag::FnPressed), Source::IsTrue(Flag::VapourChamber)])),
        KeyType::VKey(vkey::Key::F1) => Some((BuiltinAction::SendKeys(Combo::VolumeMute), seq![Source::IsXOR(Flag::PrimaryMultimediaKeys, Flag::FnPressed), Source::IsFalse(Flag::AltPressed)])),
        KeyType::VKey(vkey::Key::F2) => Some((BuiltinAction::SendKeys(Combo::VolumeDown), seq![Source::IsXOR(Flag::PrimaryMultimediaKeys, Flag::FnPressed), Source::IsFalse(Flag::AltPressed)])),
        KeyType::VKey(vkey::Key::F3) => Some((BuiltinAction::SendKeys(Combo::VolumeUp), seq![Source::IsXOR(Flag::PrimaryMultimediaKeys, Flag::FnPressed), Source::IsFalse(Flag::AltPressed)])),
        KeyType::VKey(vkey::Key::F4) => Some((BuiltinAction::SendKeys(Combo::ProjectScreen), seq![Source::IsXOR(Flag::PrimaryMultimediaKeys, Flag::FnPressed), Source::IsFalse(Flag::AltPressed)])),
        KeyType::VKey(vkey::Key::F5) => Some((BuiltinAction::SendKeys(Combo::PreviousTrack), seq![Source::IsXOR(Flag::PrimaryMultimediaKeys, Flag::FnPressed), Source::IsFalse(Flag::AltPressed)])),
        KeyType::VKey(vkey::Key::F6) => Some((BuiltinAction::SendKeys(Combo::PlayPause), seq![Source::IsXOR(Flag::PrimaryMultimediaKeys, Flag::FnPressed), Source::IsFalse(Flag::AltPressed)])),
        KeyType::VKey(vkey::Key::F7) => Some((BuiltinAction::SendKeys(Combo::NextTrack), seq![Source::IsXOR(Flag::PrimaryMultimediaKeys, Flag::FnPressed), Source::IsFalse(Flag::AltPressed)])),
        KeyType::VKey(vkey::Key::F8) => Some((BuiltinAction::AdjustScreenBrightness(-10i8), seq![Source::IsXOR(Flag::PrimaryMultimediaKeys, Flag::FnPressed), Source::IsFalse(Flag::AltPressed)])),
        KeyType::VKey(vkey::Key::F9) => Some((BuiltinAction::AdjustScreenBrightness(10i8), seq![Source::IsXOR(Flag::PrimaryMultimediaKeys, Flag::FnPressed), Source::IsFalse(Flag::AltPressed)])),
        KeyType::VKey(vkey::Key::F10) => Some((BuiltinAction::KeyboardLightDown, seq![Source::IsXOR(Flag::PrimaryMultimediaKeys, Flag::FnPressed), Source::IsFalse(Flag::AltPressed)])),
        KeyType::VKey(vkey::Key::F11) => Some((BuiltinAction::KeyboardLightUp, seq![Source::IsXOR(Flag::PrimaryMultimediaKeys, Flag::FnPressed), Source::IsFalse(Flag::AltPressed)])),
        KeyType::VKey(vkey::Key::F12) => Some((BuiltinAction::SendKeys(Combo::PrintScreen), seq![Source::IsXOR(Flag::PrimaryMultimediaKeys, Flag::FnPressed), Source::IsFalse(Flag::AltPressed)])),
        KeyType::RazerKey(razer_key::Key::Mic) => Some((BuiltinAction::ToggleMicMute, Seq::empty())),
        KeyType::RazerKey(razer_key::Key::Trackpad) => Some((BuiltinAction::ToggleTrackpad, Seq::empty())),
        KeyType::RazerKey(razer_key::Key::Perf) => Some((BuiltinAction::CyclePerfMode, Seq::empty())),
        KeyType::RazerKey(razer_key::Key::CoPilot) => Some((BuiltinAction::CycleRgbMode, Seq::empty())),
        KeyType::RazerKey(razer_key::Key::Home) => Some((BuiltinAction::SendKeys(Combo::Home), Seq::empty())),
        KeyType::RazerKey(razer_key::Key::Up) => Some((BuiltinAction::SendKeys(Combo::Up), Seq::empty())),
        KeyType::RazerKey(razer_key::Key::PgUp) => Some((BuiltinAction::SendKeys(Combo::PageUp), Seq::empty())),
        KeyType::RazerKey(razer_key::Key::Left) => Some((BuiltinAction::SendKeys(Combo::Left), Seq::empty())),
        KeyType::RazerKey(razer_key::Key::Right) => Some((BuiltinAction::SendKeys(Combo::Right), Seq::empty())),
        KeyType::RazerKey(razer_key::Key::End) => Some((BuiltinAction::SendKeys(Combo::End), Seq::empty())),
        KeyType::RazerKey(razer_key::Key::Down) => Some((BuiltinAction::SendKeys(Combo::Down), Seq::empty())),
        KeyType::RazerKey(razer_key::Key::PgDn) => Some((BuiltinAction::SendKeys(Combo::PageDown), Seq::empty())),
        _ => None,
    }
}

/// The binding of a key in the built-in map, if it has one.
pub fn builtin_key_event(key: KeyType) -> (entry: Option<KeyEventAction>)
    ensures
        match entry {
            Some(e) => builtin_binding(key) == Some((e.action, e.condition@)),
            None => builtin_binding(key) is None,
        },
{
    let entry = match key {
        KeyType::VKey(vkey::Key::B) => Some(KeyEventAction::new(BuiltinAction::CycleBatteryLimit, vec![Source::IsTrue(Flag::FnPressed)])),
        KeyType::VKey(vkey::Key::P) => Some(KeyEventAction::new(BuiltinAction::CyclePerfMode, vec![Source::IsTrue(Flag::FnPressed)])),
        KeyType::VKey(vkey::Key::R) => Some(KeyEventAction::new(BuiltinAction::CycleRefreshRate, vec![Source::IsTrue(Flag::FnPressed)])),
        KeyType::VKey(vkey::Key::T) => Some(KeyEventAction::new(BuiltinAction::ToggleTrackpad, vec![Source::IsTrue(Flag::FnPressed)])),
        KeyType::VKey(vkey::Key::V) => Some(KeyEventAction::new(BuiltinAction::ToggleVapourChamber, vec![Source::IsTrue(Flag::FnPressed), Source::IsTrue(Flag::VapourChamber)])),
        KeyType::VKey(vkey::Key::F1) => Some(KeyEventAction::new(BuiltinAction::SendKeys(Combo::VolumeMute), vec![Source::IsXOR(Flag::PrimaryMultimediaKeys, Flag::FnPressed), Source::IsFalse(Flag::AltPressed)])),
        KeyType::VKey(vkey::Key::F2) => Some(KeyEventAction::new(BuiltinAction::SendKeys(Combo::VolumeDown), vec![Source::IsXOR(Flag::PrimaryMultimediaKeys, Flag::FnPressed), Source::IsFalse(Flag::AltPressed)])),
        KeyType::VKey(vkey::Key::F3) => Some(KeyEventAction::new(BuiltinAction::SendKeys(Combo::VolumeUp), vec![Source::IsXOR(Flag::PrimaryMultimediaKeys, Flag::FnPressed), Source::IsFalse(Flag::AltPressed)])),
        KeyType::VKey(vkey::Key::F4) => Some(KeyEventAction::new(BuiltinAction::SendKeys(Combo::ProjectScreen), vec![Source::IsXOR(Flag::PrimaryMultimediaKeys, Flag::FnPressed), Source::IsFalse(Flag::AltPressed)])),
        KeyType::VKey(vkey::Key::F5) => Some(KeyEventAction::new(BuiltinAction::SendKeys(Combo::PreviousTrack), vec![Source::IsXOR(Flag::PrimaryMultimediaKeys, Flag::FnPressed), Source::IsFalse(Flag::AltPressed)])),
        KeyType::VKey(vkey::Key::F6) => Some(KeyEventAction::new(BuiltinAction::SendKeys(Combo::PlayPause), vec![Source::IsXOR(Flag::PrimaryMultimediaKeys, Flag::FnPressed), Source::IsFalse(Flag::AltPressed)])),
        KeyType::VKey(vkey::Key::F7) => Some(KeyEventAction::new(BuiltinAction::SendKeys(Combo::NextTrack), vec![Source::IsXOR(Flag::PrimaryMultimediaKeys, Flag::FnPressed), Source::IsFalse(Flag::AltPressed)])),
        KeyType::VKey(vkey::Key::F8) => Some(KeyEventAction::new(BuiltinAction::AdjustScreenBrightness(-10), vec![Source::IsXOR(Flag::PrimaryMultimediaKeys, Flag::FnPressed), Source::IsFalse(Flag::AltPressed)])),
        KeyType::VKey(vkey::Key::F9) => Some(KeyEventAction::new(BuiltinAction::AdjustScreenBrightness(10), vec![Source::IsXOR(Flag::PrimaryMultimediaKeys, Flag::FnPressed), Source::IsFalse(Flag::AltPressed)])),
        KeyType::VKey(vkey::Key::F10) => Some(KeyEventAction::new(BuiltinAction::KeyboardLightDown, vec![Source::IsXOR(Flag::PrimaryMultimediaKeys, Flag::FnPressed), Source::IsFalse(Flag::AltPressed)])),
        KeyType::VKey(vkey::Key::F11) => Some(KeyEventAction::new(BuiltinAction::KeyboardLightUp, vec![Source::IsXOR(Flag::PrimaryMultimediaKeys, Flag::FnPressed), Source::IsFalse(Flag::AltPressed)])),
        KeyType::VKey(vkey::Key::F12) => Some(KeyEventAction::new(BuiltinAction::SendKeys(Combo::PrintScreen), vec![Source::IsXOR(Flag::PrimaryMultimediaKeys, Flag::FnPressed), Source::IsFalse(Flag::AltPressed)])),
        KeyType::RazerKey(razer_key::Key::Mic) => Some(KeyEventAction::new(BuiltinAction::ToggleMicMute, Vec::new())),
        KeyType::RazerKey(razer_key::Key::Trackpad) => Some(KeyEventAction::new(BuiltinAction::ToggleTrackpad, Vec::new())),
        KeyType::RazerKey(razer_key::Key::Perf) => Some(KeyEventAction::new(BuiltinAction::CyclePerfMode, Vec::new())),
        KeyType::RazerKey(razer_key::Key::CoPilot) => Some(KeyEventAction::new(BuiltinAction::CycleRgbMode, Vec::new())),
        KeyType::RazerKey(razer_key::Key::Home) => Some(KeyEventAction::new(BuiltinAction::SendKeys(Combo::Home), Vec::new())),
        KeyType::RazerKey(razer_key::Key::Up) => Some(KeyEventAction::new(BuiltinAction::SendKeys(Combo::Up), Vec::new())),
        KeyType::RazerKey(razer_key::Key::PgUp) => Some(KeyEventAction::new(BuiltinAction::SendKeys(Combo::PageUp), Vec::new())),
        KeyType::RazerKey(razer_key::Key::Left) => Some(KeyEventAction::new(BuiltinAction::SendKeys(Combo::Left), Vec::new())),
        KeyType::RazerKey(razer_key::Key::Right) => Some(KeyEventAction::new(BuiltinAction::SendKeys(Combo::Right), Vec::new())),
        KeyType::RazerKey(razer_key::Key::End) => Some(KeyEventAction::new(BuiltinAction::SendKeys(Combo::End), Vec::new())),
        KeyType::RazerKey(razer_key::Key::Down) => Some(KeyEventAction::new(BuiltinAction::SendKeys(Combo::Down), Vec::new())),
        KeyType::RazerKey(razer_key::Key::PgDn) => Some(KeyEventAction::new(BuiltinAction::SendKeys(Combo::PageDown), Vec::new())),
        _ => None,
    };
    proof {
        if let Some(e) = &entry {
            assert(builtin_binding(key) matches Some(b) && b.1 =~= e.condition@);
        }
    }
    entry
}

/// Every key the built-in map binds, in no particular order.
pub open spec fn builtin_key_seq() -> Seq<KeyType> {
    seq![
        KeyType::VKey(vkey::Key::B),
        KeyType::VKey(vkey::Key::P),
        KeyType::VKey(vkey::Key::R),
        KeyType::VKey(vkey::Key::T),
        KeyType::VKey(vkey::Key::V),
        KeyType::VKey(vkey::Key::F1),
        KeyType::VKey(vkey::Key::F2),
        KeyType::VKey(vkey::Key::F3),
        KeyType::VKey(vkey::Key::F4),
        KeyType::VKey(vkey::Key::F5),
        KeyType::VKey(vkey::Key::F6),
        KeyType::VKey(vkey::Key::F7),
        KeyType::VKey(vkey::Key::F8),
        KeyType::VKey(vkey::Key::F9),
        KeyType::VKey(vkey::Key::F10),
        KeyType::VKey(vkey::Key::F11),
        KeyType::VKey(vkey::Key::F12),
        KeyType::RazerKey(razer_key::Key::Mic),
        KeyType::RazerKey(razer_key::Key::Trackpad),
        KeyType::RazerKey(razer_key::Key::Perf),
        KeyType::RazerKey(razer_key::Key::CoPilot),
        KeyType::RazerKey(razer_key::Key::Home),
        KeyType::RazerKey(razer_key::Key::Up),
        KeyType::RazerKey(razer_key::Key::PgUp),
        KeyType::RazerKey(razer_key::Key::Left),
        KeyType::RazerKey(razer_key::Key::Right),
        KeyType::RazerKey(razer_key::Key::End),
        KeyType::RazerKey(razer_key::Key::Down),
        KeyType::RazerKey(razer_key::Key::PgDn)
    ]
}

/// The keys the built-in map binds.
pub fn builtin_keys() -> (keys: Vec<KeyType>)
    ensures
        keys@ == builtin_key_seq(),
{
    let keys = vec![
        KeyType::VKey(vkey::Key::B),
        KeyType::VKey(vkey::Key::P),
        KeyType::VKey(vkey::Key::R),
        KeyType::VKey(vkey::Key::T),
        KeyType::VKey(vkey::Key::V),
        KeyType::VKey(vkey::Key::F1),
        KeyType::VKey(vkey::Key::F2),
        KeyType::VKey(vkey::Key::F3),
        KeyType::VKey(vkey::Key::F4),
        KeyType::VKey(vkey::Key::F5),
        KeyType::VKey(vkey::Key::F6),
        KeyType::VKey(vkey::Key::F7),
        KeyType::VKey(vkey::Key::F8),
        KeyType::VKey(vkey::Key::F9),
        KeyType::VKey(vkey::Key::F10),
        KeyType::VKey(vkey::Key::F11),
        KeyType::VKey(vkey::Key::F12),
        KeyType::RazerKey(razer_key::Key::Mic),
        KeyType::RazerKey(razer_key::Key::Trackpad),
        KeyType::RazerKey(razer_key::Key::Perf),
        KeyType::RazerKey(razer_key::Key::CoPilot),
        KeyType::RazerKey(razer_key::Key::Home),
        KeyType::RazerKey(razer_key::Key::Up),
        KeyType::RazerKey(razer_key::Key::PgUp),
        KeyType::RazerKey(razer_key::Key::Left),
        KeyType::RazerKey(razer_key::Key::Right),
        KeyType::RazerKey(razer_key::Key::End),
        KeyType::RazerKey(razer_key::Key::Down),
        KeyType::RazerKey(razer_key::Key::PgDn)
    ];
    assert(keys@ =~= builtin_key_seq());
    keys
}

/// The list of bound keys is the built-in map's domain, with no key twice.
pub proof fn builtin_keys_are_the_map_domain(key: KeyType)
    ensures
        builtin_binding(key) is Some <==> builtin_key_seq().contains(key),
        builtin_key_seq().no_duplicates(),
{
    let s = builtin_key_seq();
    if builtin_binding(key) is Some {
        let i = choose|i: int| 0 <= i < s.len() && s[i] == key;
        assert(exists|i: int| 0 <= i < s.len() && s[i] == key) by {
            match key {
                KeyType::VKey(vkey::Key::B) => { assert(s[0] == key); },
                KeyType::VKey(vkey::Key::P) => { assert(s[1] == key); },
                KeyType::VKey(vkey::Key::R) => { assert(s[2] == key); },
                KeyType::VKey(vkey::Key::T) => { assert(s[3] == key); },
                KeyType::VKey(vkey::Key::V) => { assert(s[4] == key); },
                KeyType::VKey(vkey::Key::F1) => { assert(s[5] == key); },
                KeyType::VKey(vkey::Key::F2) => { assert(s[6] == key); },
                KeyType::VKey(vkey::Key::F3) => { assert(s[7] == key); },
                KeyType::VKey(vkey::Key::F4) => { assert(s[8] == key); },
                KeyType::VKey(vkey::Key::F5) => { assert(s[9] == key); },
                KeyType::VKey(vkey::Key::F6) => { assert(s[10] == key); },
                KeyType::VKey(vkey::Key::F7) => { assert(s[11] == key); },
                KeyType::VKey(vkey::Key::F8) => { assert(s[12] == key); },
                KeyType::VKey(vkey::Key::F9) => { assert(s[13] == key); },
                KeyType::VKey(vkey::Key::F10) => { assert(s[14] == key); },
                KeyType::VKey(vkey::Key::F11) => { assert(s[15] == key); },
                KeyType::VKey(vkey::Key::F12) => { assert(s[16] == key); },
                KeyType::RazerKey(razer_key::Key::Mic) => { assert(s[17] == key); },
                KeyType::RazerKey(razer_key::Key::Trackpad) => { assert(s[18] == key); },
                KeyType::RazerKey(razer_key::Key::Perf) => { assert(s[19] == key); },
                KeyType::RazerKey(razer_key::Key::CoPilot) => { assert(s[20] == key); },
                KeyType::RazerKey(razer_key::Key::Home) => { assert(s[21] == key); },
                KeyType::RazerKey(razer_key::Key::Up) => { assert(s[22] == key); },
                KeyType::RazerKey(razer_key::Key::PgUp) => { assert(s[23] == key); },
                KeyType::RazerKey(razer_key::Key::Left) => { assert(s[24] == key); },
                KeyType::RazerKey(razer_key::Key::Right) => { assert(s[25] == key); },
                KeyType::RazerKey(razer_key::Key::End) => { assert(s[26] == key); },
                KeyType::RazerKey(razer_key::Key::Down) => { assert(s[27] == key); },
                KeyType::RazerKey(razer_key::Key::PgDn) => { assert(s[28] == key); },
                _ => {},
            }
        }
    }
    assert forall|i: int, j: int| 0 <= i < s.len() && 0 <= j < s.len() && i != j implies s[i]
        != s[j] by {}
}

} // verus!
