//! What the built-in key map does, described as data.
//!
//! A custom binding takes precedence over the stock behaviour of its key, and
//! the row that does so says which action it replaced. This table is that
//! description; the laws below keep it from drifting away from the map.

use vstd::prelude::*;
use std::collections::BTreeMap;

use crate::input::KeyType;
use crate::key_map::{builtin_binding, builtin_key_seq};
use crate::razer_key;
use crate::vkey;

verus! {

broadcast use vstd::laws_cmp::group_laws_cmp;

/// Razer special keys the built-in map handles, with their key codes.
pub const BUILT_IN_RAZER: [(razer_key::Key, u16, &'static str); 12] = [
    (razer_key::Key::Mic, 0xd4, "Toggle microphone mute"),
    (razer_key::Key::Trackpad, 0xdd, "Toggle trackpad"),
    (razer_key::Key::Perf, 0xd3, "Cycle performance mode"),
    (razer_key::Key::CoPilot, 0xd2, "Cycle lighting effect"),
    (razer_key::Key::Home, 0xd5, "Home"),
    (razer_key::Key::Up, 0xd6, "Arrow up"),
    (razer_key::Key::PgUp, 0xd7, "Page up"),
    (razer_key::Key::Left, 0xd8, "Arrow left"),
    (razer_key::Key::Right, 0xd9, "Arrow right"),
    (razer_key::Key::End, 0xda, "End"),
    (razer_key::Key::Down, 0xdb, "Arrow down"),
    (razer_key::Key::PgDn, 0xdc, "Page down"),
];

/// Keys the built-in map handles while Fn is held.
pub const BUILT_IN_HYPERSHIFT: [(vkey::Key, u16, &'static str); 17] = [
    (vkey::Key::B, 0x42, "Cycle charge limit"),
    (vkey::Key::P, 0x50, "Cycle performance mode"),
    (vkey::Key::R, 0x52, "Cycle refresh rate"),
    (vkey::Key::T, 0x54, "Toggle trackpad"),
    (vkey::Key::V, 0x56, "Toggle vapour chamber light"),
    (vkey::Key::F1, 0x70, "Mute"),
    (vkey::Key::F2, 0x71, "Volume down"),
    (vkey::Key::F3, 0x72, "Volume up"),
    (vkey::Key::F4, 0x73, "Project to a second screen"),
    (vkey::Key::F5, 0x74, "Previous track"),
    (vkey::Key::F6, 0x75, "Play or pause"),
    (vkey::Key::F7, 0x76, "Next track"),
    (vkey::Key::F8, 0x77, "Screen brightness down"),
    (vkey::Key::F9, 0x78, "Screen brightness up"),
    (vkey::Key::F10, 0x79, "Keyboard backlight down"),
    (vkey::Key::F11, 0x7a, "Keyboard backlight up"),
    (vkey::Key::F12, 0x7b, "Print screen"),
];

pub open spec fn razer_table() -> Seq<(razer_key::Key, u16, Seq<char>)> {
    seq![
        (razer_key::Key::Mic, 0xd4u16, "Toggle microphone mute"@),
        (razer_key::Key::Trackpad, 0xddu16, "Toggle trackpad"@),
        (razer_key::Key::Perf, 0xd3u16, "Cycle performance mode"@),
        (razer_key::Key::CoPilot, 0xd2u16, "Cycle lighting effect"@),
        (razer_key::Key::Home, 0xd5u16, "Home"@),
        (razer_key::Key::Up, 0xd6u16, "Arrow up"@),
        (razer_key::Key::PgUp, 0xd7u16, "Page up"@),
        (razer_key::Key::Left, 0xd8u16, "Arrow left"@),
        (razer_key::Key::Right, 0xd9u16, "Arrow right"@),
        (razer_key::Key::End, 0xdau16, "End"@),
        (razer_key::Key::Down, 0xdbu16, "Arrow down"@),
        (razer_key::Key::PgDn, 0xdcu16, "Page down"@)
    ]
}

pub open spec fn hypershift_table() -> Seq<(vkey::Key, u16, Seq<char>)> {
    seq![
        (vkey::Key::B, 0x42u16, "Cycle charge limit"@),
        (vkey::Key::P, 0x50u16, "Cycle performance mode"@),
        (vkey::Key::R, 0x52u16, "Cycle refresh rate"@),
        (vkey::Key::T, 0x54u16, "Toggle trackpad"@),
        (vkey::Key::V, 0x56u16, "Toggle vapour chamber light"@),
        (vkey::Key::F1, 0x70u16, "Mute"@),
        (vkey::Key::F2, 0x71u16, "Volume down"@),
        (vkey::Key::F3, 0x72u16, "Volume up"@),
        (vkey::Key::F4, 0x73u16, "Project to a second screen"@),
        (vkey::Key::F5, 0x74u16, "Previous track"@),
        (vkey::Key::F6, 0x75u16, "Play or pause"@),
        (vkey::Key::F7, 0x76u16, "Next track"@),
        (vkey::Key::F8, 0x77u16, "Screen brightness down"@),
        (vkey::Key::F9, 0x78u16, "Screen brightness up"@),
        (vkey::Key::F10, 0x79u16, "Keyboard backlight down"@),
        (vkey::Key::F11, 0x7au16, "Keyboard backlight up"@),
        (vkey::Key::F12, 0x7bu16, "Print screen"@)
    ]
}

/// Whether a Fn-layer row describes something this model does: Fn+V only
/// lights a vapour chamber that is there.
pub open spec fn hypershift_row_applies(code: u16, vapour_chamber: bool) -> bool {
    code != 0x56 || vapour_chamber
}

/// The labels a label map must hold: each code of the table mapped to the
/// label of its row.
pub open spec fn has_labels_of<K>(
    labels: Map<u16, String>,
    table: Seq<(K, u16, Seq<char>)>,
    keep: spec_fn(u16) -> bool,
) -> bool {
    &&& forall|code: u16|
        labels.contains_key(code) <==> exists|i: int|
            0 <= i < table.len() && (#[trigger] table[i]).1 == code && keep(code)
    &&& forall|i: int|
        0 <= i < table.len() && keep((#[trigger] table[i]).1) ==> labels[table[i].1]@
            == table[i].2
}

/// The built-in Razer bindings as the window sees them: code to label.
pub fn razer_labels() -> (labels: BTreeMap<u16, String>)
    ensures
        has_labels_of(labels@, razer_table(), |code: u16| true),
{
    let ghost table = razer_table();
    let mut labels: BTreeMap<u16, String> = BTreeMap::new();
    let mut i: usize = 0;
    while i < 12
        invariant
            i <= 12,
            table == razer_table(),
            forall|j: int| 0 <= j < 12 ==> (#[trigger] BUILT_IN_RAZER@[j]).0 == table[j].0
                && BUILT_IN_RAZER@[j].1 == table[j].1 && BUILT_IN_RAZER@[j].2@ == table[j].2,
            forall|code: u16|
                labels@.contains_key(code) <==> exists|j: int|
                    0 <= j < i && (#[trigger] table[j]).1 == code,
            forall|j: int| 0 <= j < i ==> labels@[(#[trigger] table[j]).1]@ == table[j].2,
        decreases 12 - i,
    {
        let (_, code, label) = BUILT_IN_RAZER[i];
        labels.insert(code, label.to_owned());
        proof {
            assert(table[i as int].1 == code);
            assert forall|j: int| 0 <= j < i implies labels@[(#[trigger] table[j]).1]@ == table[j].2 by {
                assert(table[j].1 != code);
            }
            assert forall|c: u16|
                labels@.contains_key(c) <==> exists|j: int|
                    0 <= j < i + 1 && (#[trigger] table[j]).1 == c by {
                if labels@.contains_key(c) && c != code {
                    let j = choose|j: int| 0 <= j < i && (#[trigger] table[j]).1 == c;
                }
                if c == code {
                    assert(table[i as int].1 == c);
                }
            }
        }
        i = i + 1;
    }
    labels
}

/// The built-in Fn-layer bindings as the window sees them: code to label.
/// Fn+V overrides nothing where there is no vapour chamber to light, so it is
/// only described where there is one.
pub fn hypershift_labels(vapour_chamber: bool) -> (labels: BTreeMap<u16, String>)
    ensures
        has_labels_of(
            labels@,
            hypershift_table(),
            |code: u16| hypershift_row_applies(code, vapour_chamber),
        ),
{
    let ghost table = hypershift_table();
    let ghost keep = |code: u16| hypershift_row_applies(code, vapour_chamber);
    let mut labels: BTreeMap<u16, String> = BTreeMap::new();
    let mut i: usize = 0;
    while i < 17
        invariant
            i <= 17,
            table == hypershift_table(),
            keep == (|code: u16| hypershift_row_applies(code, vapour_chamber)),
            forall|j: int| 0 <= j < 17 ==> (#[trigger] BUILT_IN_HYPERSHIFT@[j]).0 == table[j].0
                && BUILT_IN_HYPERSHIFT@[j].1 == table[j].1 && BUILT_IN_HYPERSHIFT@[j].2@
                == table[j].2,
            forall|code: u16|
                labels@.contains_key(code) <==> exists|j: int|
                    0 <= j < i && (#[trigger] table[j]).1 == code && keep(code),
            forall|j: int|
                0 <= j < i && keep((#[trigger] table[j]).1) ==> labels@[table[j].1]@ == table[j].2,
        decreases 17 - i,
    {
        let (_, code, label) = BUILT_IN_HYPERSHIFT[i];
        proof {
            assert(table[i as int].1 == code);
        }
        if code != 0x56 || vapour_chamber {
            labels.insert(code, label.to_owned());
            proof {
                assert forall|j: int|
                    0 <= j < i && keep((#[trigger] table[j]).1) implies labels@[table[j].1]@
                    == table[j].2 by {
                    assert(table[j].1 != code);
                }
                assert forall|c: u16|
                    labels@.contains_key(c) <==> exists|j: int|
                        0 <= j < i + 1 && (#[trigger] table[j]).1 == c && keep(c) by {
                    if labels@.contains_key(c) && c != code {
                        let j = choose|j: int| 0 <= j < i && (#[trigger] table[j]).1 == c && keep(c);
                    }
                    if c == code {
                        assert(table[i as int].1 == c);
                    }
                }
            }
        } else {
            proof {
                assert forall|c: u16|
                    labels@.contains_key(c) <==> exists|j: int|
                        0 <= j < i + 1 && (#[trigger] table[j]).1 == c && keep(c) by {
                    if labels@.contains_key(c) {
                        let j = choose|j: int| 0 <= j < i && (#[trigger] table[j]).1 == c && keep(c);
                    }
                }
            }
        }
        i = i + 1;
    }
    labels
}

/// The description and the built-in map cover the same keys: every
/// described key is bound, every bound key is described, and each row's
/// code is the code of the key it names.
pub proof fn description_matches_the_map(key: KeyType)
    ensures
        builtin_binding(key) is Some <==> (match key {
            KeyType::RazerKey(k) => exists|i: int|
                0 <= i < razer_table().len() && (#[trigger] razer_table()[i]).0 == k,
            KeyType::VKey(k) => exists|i: int|
                0 <= i < hypershift_table().len() && (#[trigger] hypershift_table()[i]).0 == k,
        }),
        forall|i: int|
            0 <= i < razer_table().len() ==> razer_key::key_for_code(
                (#[trigger] razer_table()[i]).1 as u8,
            ) == razer_table()[i].0,
        forall|i: int|
            0 <= i < hypershift_table().len() ==> vkey::key_for_code(
                (#[trigger] hypershift_table()[i]).1 as u8,
            ) == hypershift_table()[i].0,
        builtin_key_seq().len() == razer_table().len() + hypershift_table().len(),
{
    let r = razer_table();
    let h = hypershift_table();
    match key {
        KeyType::RazerKey(k) => {
            if builtin_binding(key) is Some {
                assert(exists|i: int| 0 <= i < r.len() && (#[trigger] r[i]).0 == k) by {
                    match k {
                        razer_key::Key::Mic => { assert(r[0].0 == k); },
                        razer_key::Key::Trackpad => { assert(r[1].0 == k); },
                        razer_key::Key::Perf => { assert(r[2].0 == k); },
                        razer_key::Key::CoPilot => { assert(r[3].0 == k); },
                        razer_key::Key::Home => { assert(r[4].0 == k); },
                        razer_key::Key::Up => { assert(r[5].0 == k); },
                        razer_key::Key::PgUp => { assert(r[6].0 == k); },
                        razer_key::Key::Left => { assert(r[7].0 == k); },
                        razer_key::Key::Right => { assert(r[8].0 == k); },
                        razer_key::Key::End => { assert(r[9].0 == k); },
                        razer_key::Key::Down => { assert(r[10].0 == k); },
                        razer_key::Key::PgDn => { assert(r[11].0 == k); },
                        _ => {},
                    }
                }
            }
        },
        KeyType::VKey(k) => {
            if builtin_binding(key) is Some {
                assert(exists|i: int| 0 <= i < h.len() && (#[trigger] h[i]).0 == k) by {
                    match k {
                        vkey::Key::B => { assert(h[0].0 == k); },
                        vkey::Key::P => { assert(h[1].0 == k); },
                        vkey::Key::R => { assert(h[2].0 == k); },
                        vkey::Key::T => { assert(h[3].0 == k); },
                        vkey::Key::V => { assert(h[4].0 == k); },
                        vkey::Key::F1 => { assert(h[5].0 == k); },
                        vkey::Key::F2 => { assert(h[6].0 == k); },
                        vkey::Key::F3 => { assert(h[7].0 == k); },
                        vkey::Key::F4 => { assert(h[8].0 == k); },
                        vkey::Key::F5 => { assert(h[9].0 == k); },
                        vkey::Key::F6 => { assert(h[10].0 == k); },
                        vkey::Key::F7 => { assert(h[11].0 == k); },
                        vkey::Key::F8 => { assert(h[12].0 == k); },
                        vkey::Key::F9 => { assert(h[13].0 == k); },
                        vkey::Key::F10 => { assert(h[14].0 == k); },
                        vkey::Key::F11 => { assert(h[15].0 == k); },
                        vkey::Key::F12 => { assert(h[16].0 == k); },
                        _ => {},
                    }
                }
            }
        },
    }
}

} // verus!
