//! Razer's dedicated keys, as their HID special-key reports name them.

use vstd::prelude::*;

verus! {

#[derive(Debug, PartialEq, Copy, Clone, Eq, Hash, Structural)]
pub enum Key {
    Mic,
    Trackpad,
    Perf,
    M1,
    M2,
    M3,
    M4,
    Game,
    CoPilot,
    Home,
    Up,
    PgUp,
    Left,
    Right,
    End,
    Down,
    PgDn,
    Unknown,
}

/// The key a code names; every code the keyboard does not name is `Unknown`.
pub open spec fn key_for_code(code: u8) -> Key {
    match code {
        0xd4 => Key::Mic,
        0xdd => Key::Trackpad,
        0xd3 => Key::Perf,
        0x24 => Key::M1,
        0x25 => Key::M2,
        0x26 => Key::M3,
        0x27 => Key::M4,
        0x03 => Key::Game,
        0xd2 => Key::CoPilot,
        0xd5 => Key::Home,
        0xd6 => Key::Up,
        0xd7 => Key::PgUp,
        0xd8 => Key::Left,
        0xd9 => Key::Right,
        0xda => Key::End,
        0xdb => Key::Down,
        0xdc => Key::PgDn,
        _ => Key::Unknown,
    }
}

/// The code a named key is reported with.
pub open spec fn code_of(key: Key) -> Option<u8> {
    match key {
        Key::Mic => Some(0xd4u8),
        Key::Trackpad => Some(0xddu8),
        Key::Perf => Some(0xd3u8),
        Key::M1 => Some(0x24u8),
        Key::M2 => Some(0x25u8),
        Key::M3 => Some(0x26u8),
        Key::M4 => Some(0x27u8),
        Key::Game => Some(0x03u8),
        Key::CoPilot => Some(0xd2u8),
        Key::Home => Some(0xd5u8),
        Key::Up => Some(0xd6u8),
        Key::PgUp => Some(0xd7u8),
        Key::Left => Some(0xd8u8),
        Key::Right => Some(0xd9u8),
        Key::End => Some(0xdau8),
        Key::Down => Some(0xdbu8),
        Key::PgDn => Some(0xdcu8),
        Key::Unknown => None,
    }
}

impl Key {
    /// The code this key is reported with; `Unknown` has none.
    pub fn code(self) -> (code: Option<u8>)
        ensures
            code == code_of(self),
    {
        match self {
            Key::Mic => Some(0xd4),
            Key::Trackpad => Some(0xdd),
            Key::Perf => Some(0xd3),
            Key::M1 => Some(0x24),
            Key::M2 => Some(0x25),
            Key::M3 => Some(0x26),
            Key::M4 => Some(0x27),
            Key::Game => Some(0x03),
            Key::CoPilot => Some(0xd2),
            Key::Home => Some(0xd5),
            Key::Up => Some(0xd6),
            Key::PgUp => Some(0xd7),
            Key::Left => Some(0xd8),
            Key::Right => Some(0xd9),
            Key::End => Some(0xda),
            Key::Down => Some(0xdb),
            Key::PgDn => Some(0xdc),
            Key::Unknown => None,
        }
    }
}

impl From<u8> for Key {
    fn from(code: u8) -> (key: Self) {
        match code {
            0xd4 => Key::Mic,
            0xdd => Key::Trackpad,
            0xd3 => Key::Perf,
            0x24 => Key::M1,
            0x25 => Key::M2,
            0x26 => Key::M3,
            0x27 => Key::M4,
            0x03 => Key::Game,
            0xd2 => Key::CoPilot,
            0xd5 => Key::Home,
            0xd6 => Key::Up,
            0xd7 => Key::PgUp,
            0xd8 => Key::Left,
            0xd9 => Key::Right,
            0xda => Key::End,
            0xdb => Key::Down,
            0xdc => Key::PgDn,
            _ => Key::Unknown,
        }
    }
}

impl vstd::std_specs::convert::FromSpecImpl<u8> for Key {
    open spec fn obeys_from_spec() -> bool {
        true
    }

    open spec fn from_spec(code: u8) -> Key {
        key_for_code(code)
    }
}

/// A named key is found again from its own code, and no two named keys
/// share a code.
pub proof fn code_names_its_key(key: Key)
    ensures
        code_of(key) matches Some(code) ==> key_for_code(code) == key,
        code_of(key) is None <==> key == Key::Unknown,
{
}

} // verus!
