//! The Windows virtual keys the Fn layer gives a meaning to.

use vstd::prelude::*;

verus! {

#[derive(Debug, PartialEq, Copy, Clone, Eq, Hash, Structural)]
pub enum Key {
    B,
    P,
    R,
    T,
    V,
    F1,
    F2,
    F3,
    F4,
    F5,
    F6,
    F7,
    F8,
    F9,
    F10,
    F11,
    F12,
    Unknown,
}

/// The key a code names; every code the keyboard does not name is `Unknown`.
pub open spec fn key_for_code(code: u8) -> Key {
    match code {
        0x42 => Key::B,
        0x50 => Key::P,
        0x52 => Key::R,
        0x54 => Key::T,
        0x56 => Key::V,
        0x70 => Key::F1,
        0x71 => Key::F2,
        0x72 => Key::F3,
        0x73 => Key::F4,
        0x74 => Key::F5,
        0x75 => Key::F6,
        0x76 => Key::F7,
        0x77 => Key::F8,
        0x78 => Key::F9,
        0x79 => Key::F10,
        0x7a => Key::F11,
        0x7b => Key::F12,
        _ => Key::Unknown,
    }
}

/// The code a named key is reported with.
pub open spec fn code_of(key: Key) -> Option<u8> {
    match key {
        Key::B => Some(0x42u8),
        Key::P => Some(0x50u8),
        Key::R => Some(0x52u8),
        Key::T => Some(0x54u8),
        Key::V => Some(0x56u8),
        Key::F1 => Some(0x70u8),
        Key::F2 => Some(0x71u8),
        Key::F3 => Some(0x72u8),
        Key::F4 => Some(0x73u8),
        Key::F5 => Some(0x74u8),
        Key::F6 => Some(0x75u8),
        Key::F7 => Some(0x76u8),
        Key::F8 => Some(0x77u8),
        Key::F9 => Some(0x78u8),
        Key::F10 => Some(0x79u8),
        Key::F11 => Some(0x7au8),
        Key::F12 => Some(0x7bu8),
        Key::Unknown => None,
    }
}

impl Key {
    /// The code this key is reported with; `Unknown` has none.
    pub fn code(self) -> (code: Option<u8>)
        ensures
            code == code_of(self),
    {
        match self {
            Key::B => Some(0x42),
            Key::P => Some(0x50),
            Key::R => Some(0x52),
            Key::T => Some(0x54),
            Key::V => Some(0x56),
            Key::F1 => Some(0x70),
            Key::F2 => Some(0x71),
            Key::F3 => Some(0x72),
            Key::F4 => Some(0x73),
            Key::F5 => Some(0x74),
            Key::F6 => Some(0x75),
            Key::F7 => Some(0x76),
            Key::F8 => Some(0x77),
            Key::F9 => Some(0x78),
            Key::F10 => Some(0x79),
            Key::F11 => Some(0x7a),
            Key::F12 => Some(0x7b),
            Key::Unknown => None,
        }
    }
}

impl From<u8> for Key {
    fn from(code: u8) -> (key: Self) {
        match code {
            0x42 => Key::B,
            0x50 => Key::P,
            0x52 => Key::R,
            0x54 => Key::T,
            0x56 => Key::V,
            0x70 => Key::F1,
            0x71 => Key::F2,
            0x72 => Key::F3,
            0x73 => Key::F4,
            0x74 => Key::F5,
            0x75 => Key::F6,
            0x76 => Key::F7,
            0x77 => Key::F8,
            0x78 => Key::F9,
            0x79 => Key::F10,
            0x7a => Key::F11,
            0x7b => Key::F12,
            _ => Key::Unknown,
        }
    }
}

impl vstd::std_specs::convert::FromSpecImpl<u8> for Key {
    open spec fn obeys_from_spec() -> bool {
        true
    }

    open spec fn from_spec(code: u8) -> Key {
        key_for_code(code)
    }
}

/// A named key is found again from its own code, and no two named keys
/// share a code.
pub proof fn code_names_its_key(key: Key)
    ensures
        code_of(key) matches Some(code) ==> key_for_code(code) == key,
        code_of(key) is None <==> key == Key::Unknown,
{
}

} // verus!
