//! Which displays are attached, and how to tell that the arrangement changed.

use vstd::prelude::*;

use crate::text::chars_of;

verus! {

/// The display state flag: part of the desktop.
pub const DISPLAY_DEVICE_ATTACHED_TO_DESKTOP: u32 = 0x0000_0001;

/// The display state flag: the primary display.
pub const DISPLAY_DEVICE_PRIMARY_DEVICE: u32 = 0x0000_0004;

/// Whether a code unit leads a surrogate pair.
pub open spec fn is_high_surrogate(unit: u16) -> bool {
    0xD800 <= unit <= 0xDBFF
}

/// Whether a code unit ends a surrogate pair.
pub open spec fn is_low_surrogate(unit: u16) -> bool {
    0xDC00 <= unit <= 0xDFFF
}

/// Lossy UTF-16 decoding: a high surrogate followed by a low one is one
/// scalar value, any surrogate without its partner becomes U+FFFD, and every
/// other unit is the character it codes.
pub open spec fn utf16_lossy(units: Seq<u16>) -> Seq<char>
    decreases units.len(),
{
    if units.len() == 0 {
        Seq::empty()
    } else if units.len() >= 2 && is_high_surrogate(units[0]) && is_low_surrogate(units[1]) {
        seq![(0x10000 + (units[0] - 0xD800) * 0x400 + (units[1] - 0xDC00)) as char]
            + utf16_lossy(units.subrange(2, units.len() as int))
    } else if 0xD800 <= units[0] <= 0xDFFF {
        seq!['\u{FFFD}'] + utf16_lossy(units.drop_first())
    } else {
        seq![units[0] as char] + utf16_lossy(units.drop_first())
    }
}

/// Decodes UTF-16 with `String::from_utf16_lossy`: pairs of surrogates are
/// joined, each unpaired surrogate is replaced by U+FFFD, and every other
/// unit is kept, as std documents for `char::decode_utf16` and
/// `from_utf16_lossy`.
#[verifier::external_body]
fn decode_utf16_lossy(units: &[u16]) -> (s: String)
    ensures
        s@ == utf16_lossy(units@),
{
    String::from_utf16_lossy(units)
}

/// The units of a wide string up to, not including, its first nul; all of
/// them when there is none.
pub open spec fn until_nul(units: Seq<u16>) -> Seq<u16>
    decreases units.len(),
{
    if units.len() == 0 {
        units
    } else if units[0] == 0 {
        Seq::empty()
    } else {
        seq![units[0]] + until_nul(units.drop_first())
    }
}

proof fn lemma_until_nul_prefix(units: Seq<u16>, i: int)
    requires
        0 <= i <= units.len(),
        forall|j: int| 0 <= j < i ==> units[j] != 0,
        i == units.len() || units[i] == 0,
    ensures
        until_nul(units) == units.take(i),
    decreases units.len(),
{
    if units.len() > 0 && i > 0 {
        lemma_until_nul_prefix(units.drop_first(), i - 1);
        assert(seq![units[0]] + units.drop_first().take(i - 1) =~= units.take(i));
    } else if units.len() > 0 {
        assert(units.take(0) =~= Seq::<u16>::empty());
    }
}

/// How many units come before the first nul.
fn nul_position(value: &[u16]) -> (len: usize)
    ensures
        len <= value.len(),
        until_nul(value@) == value@.take(len as int),
{
    let mut i: usize = 0;
    while i < value.len() && value[i] != 0
        invariant
            i <= value.len(),
            forall|j: int| 0 <= j < i ==> value@[j] != 0,
        decreases value.len() - i,
    {
        i = i + 1;
    }
    proof {
        lemma_until_nul_prefix(value@, i as int);
    }
    i
}

/// A fixed-size wide string buffer as text: everything before the first nul,
/// decoded.
pub fn wide_string_until_nul(value: &[u16]) -> (s: String)
    ensures
        s@ == utf16_lossy(until_nul(value@)),
{
    let len = nul_position(value);
    let mut units: Vec<u16> = Vec::new();
    let mut i: usize = 0;
    while i < len
        invariant
            i <= len,
            len <= value.len(),
            units@ == value@.take(i as int),
        decreases len - i,
    {
        units.push(value[i]);
        i = i + 1;
    }
    decode_utf16_lossy(units.as_slice())
}

/// A display device as enumeration reports it: its name, its description,
/// and its state flags.
pub struct DisplayDeviceInfo {
    pub device_name: Vec<u16>,
    pub device_string: Vec<u16>,
    pub state_flags: u32,
}

/// One attached display, as the layout compares it.
#[derive(Clone, Debug, PartialEq, Eq)]
pub struct DisplayIdentity {
    pub device_name: String,
    pub description: String,
    pub primary: bool,
}

/// The attached displays, ordered by device name.
#[derive(Clone, Debug, Default, PartialEq, Eq)]
pub struct DisplayLayout {
    pub displays: Vec<DisplayIdentity>,
}

/// The mathematical value of a display: (name, description, primary).
pub type IdentityView = (Seq<char>, Seq<char>, bool);

impl View for DisplayIdentity {
    type V = IdentityView;

    open spec fn view(&self) -> IdentityView {
        (self.device_name@, self.description@, self.primary)
    }
}

impl View for DisplayLayout {
    type V = Seq<IdentityView>;

    open spec fn view(&self) -> Seq<IdentityView> {
        self.displays@.map_values(|d: DisplayIdentity| d@)
    }
}

/// Lexicographic order of names by character, the order `String`'s
/// comparison gives.
pub open spec fn name_le(a: Seq<char>, b: Seq<char>) -> bool
    decreases a.len(),
{
    if a.len() == 0 {
        true
    } else if b.len() == 0 {
        false
    } else if a[0] != b[0] {
        (a[0] as u32) < (b[0] as u32)
    } else {
        name_le(a.drop_first(), b.drop_first())
    }
}

/// Inserts a display after every display whose name is not greater.
pub open spec fn insert_by_name(sorted: Seq<IdentityView>, d: IdentityView) -> Seq<IdentityView>
    decreases sorted.len(),
{
    if sorted.len() == 0 {
        seq![d]
    } else if name_le(sorted.last().0, d.0) {
        sorted.push(d)
    } else {
        insert_by_name(sorted.drop_last(), d).push(sorted.last())
    }
}

/// Displays ordered by name; displays with equal names keep the order they
/// were given in.
pub open spec fn sort_by_name(displays: Seq<IdentityView>) -> Seq<IdentityView>
    decreases displays.len(),
{
    if displays.len() == 0 {
        displays
    } else {
        insert_by_name(sort_by_name(displays.drop_last()), displays.last())
    }
}

pub open spec fn is_attached(flags: u32) -> bool {
    flags & DISPLAY_DEVICE_ATTACHED_TO_DESKTOP != 0
}

pub open spec fn is_primary(flags: u32) -> bool {
    flags & DISPLAY_DEVICE_PRIMARY_DEVICE != 0
}

/// The identity of a device, decoded.
pub open spec fn identity_of(device: DisplayDeviceInfo) -> IdentityView {
    (
        utf16_lossy(until_nul(device.device_name@)),
        utf16_lossy(until_nul(device.device_string@)),
        is_primary(device.state_flags),
    )
}

/// The identities of the attached devices, in enumeration order.
pub open spec fn attached_identities(devices: Seq<DisplayDeviceInfo>) -> Seq<IdentityView>
    decreases devices.len(),
{
    if devices.len() == 0 {
        Seq::empty()
    } else {
        let rest = attached_identities(devices.drop_last());
        if is_attached(devices.last().state_flags) {
            rest.push(identity_of(devices.last()))
        } else {
            rest
        }
    }
}

/// Whether one name sorts no later than another.
pub fn name_not_after(a: &String, b: &String) -> (le: bool)
    ensures
        le == name_le(a@, b@),
{
    let x = chars_of(a.as_str());
    let y = chars_of(b.as_str());
    let mut i: usize = 0;
    assert(a@.skip(0) =~= a@);
    assert(b@.skip(0) =~= b@);
    while i < x.len() && i < y.len() && x[i] == y[i]
        invariant
            x@ == a@,
            y@ == b@,
            i <= x.len(),
            i <= y.len(),
            name_le(a@, b@) == name_le(a@.skip(i as int), b@.skip(i as int)),
        decreases x.len() - i,
    {
        proof {
            assert(a@.skip(i as int).drop_first() =~= a@.skip(i + 1));
            assert(b@.skip(i as int).drop_first() =~= b@.skip(i + 1));
        }
        i = i + 1;
    }
    if i == x.len() {
        true
    } else if i == y.len() {
        false
    } else {
        (x[i] as u32) < (y[i] as u32)
    }
}

fn copy_identity(d: &DisplayIdentity) -> (c: DisplayIdentity)
    ensures
        c@ == d@,
{
    DisplayIdentity {
        device_name: d.device_name.clone(),
        description: d.description.clone(),
        primary: d.primary,
    }
}

/// Puts a display into a name-ordered list, after every display whose name
/// is not greater.
fn insert_display(sorted: &mut Vec<DisplayIdentity>, d: DisplayIdentity)
    ensures
        final(sorted)@.map_values(|x: DisplayIdentity| x@) == insert_by_name(
            old(sorted)@.map_values(|x: DisplayIdentity| x@),
            d@,
        ),
{
    let ghost v = old(sorted)@.map_values(|x: DisplayIdentity| x@);
    let mut p = sorted.len();
    assert(v.take(p as int) =~= v);
    assert(v.skip(p as int) =~= Seq::<IdentityView>::empty());
    while p > 0 && !name_not_after(&sorted[p - 1].device_name, &d.device_name)
        invariant
            p <= sorted.len(),
            sorted@ == old(sorted)@,
            v == old(sorted)@.map_values(|x: DisplayIdentity| x@),
            insert_by_name(v, d@) == insert_by_name(v.take(p as int), d@) + v.skip(p as int),
        decreases p,
    {
        proof {
            let t = v.take(p as int);
            assert(t.drop_last() =~= v.take(p - 1));
            assert(t.last() == v[p - 1]);
            assert(v.skip(p - 1) =~= seq![v[p - 1]] + v.skip(p as int));
            assert(insert_by_name(t, d@) == insert_by_name(v.take(p - 1), d@).push(v[p - 1]));
            assert(insert_by_name(v.take(p - 1), d@).push(v[p - 1]) + v.skip(p as int)
                =~= insert_by_name(v.take(p - 1), d@) + v.skip(p - 1));
        }
        p = p - 1;
    }
    proof {
        let t = v.take(p as int);
        if p > 0 {
            assert(t.last() == v[p - 1]);
            assert(insert_by_name(t, d@) == t.push(d@));
        } else {
            assert(insert_by_name(t, d@) == seq![d@]);
        }
    }
    let ghost dv = d@;
    sorted.insert(p, d);
    assert(sorted@.map_values(|x: DisplayIdentity| x@) =~= v.take(p as int).push(dv) + v.skip(
        p as int,
    ));
}

/// The attached displays, ordered by device name, from what enumeration
/// reported.
pub fn current_display_layout(devices: &Vec<DisplayDeviceInfo>) -> (layout: DisplayLayout)
    ensures
        layout@ == sort_by_name(attached_identities(devices@)),
{
    let mut displays: Vec<DisplayIdentity> = Vec::new();
    let mut i: usize = 0;
    while i < devices.len()
        invariant
            i <= devices.len(),
            displays@.map_values(|x: DisplayIdentity| x@) == sort_by_name(
                attached_identities(devices@.take(i as int)),
            ),
        decreases devices.len() - i,
    {
        let device = &devices[i];
        proof {
            let t = devices@.take(i + 1);
            assert(t.drop_last() =~= devices@.take(i as int));
            assert(t.last() == *device);
        }
        let ghost s = attached_identities(devices@.take(i as int));
        if device.state_flags & DISPLAY_DEVICE_ATTACHED_TO_DESKTOP != 0 {
            let identity = DisplayIdentity {
                device_name: wide_string_until_nul(device.device_name.as_slice()),
                description: wide_string_until_nul(device.device_string.as_slice()),
                primary: device.state_flags & DISPLAY_DEVICE_PRIMARY_DEVICE != 0,
            };
            proof {
                assert(identity@ == identity_of(*device));
                assert(attached_identities(devices@.take(i + 1)) == s.push(identity@));
                assert(s.push(identity@).drop_last() =~= s);
            }
            insert_display(&mut displays, identity);
        } else {
            assert(attached_identities(devices@.take(i + 1)) == s);
        }
        i = i + 1;
    }
    assert(devices@.take(devices.len() as int) =~= devices@);
    DisplayLayout { displays }
}

/// Whether two layouts list the same displays in the same order.
pub fn same_layout(a: &DisplayLayout, b: &DisplayLayout) -> (same: bool)
    ensures
        same == (a@ == b@),
{
    if a.displays.len() != b.displays.len() {
        assert(a@.len() != b@.len());
        return false;
    }
    let mut i: usize = 0;
    while i < a.displays.len()
        invariant
            i <= a.displays.len(),
            a.displays.len() == b.displays.len(),
            forall|j: int| 0 <= j < i ==> a.displays@[j]@ == b.displays@[j]@,
        decreases a.displays.len() - i,
    {
        let x = &a.displays[i];
        let y = &b.displays[i];
        if !(x.device_name == y.device_name && x.description == y.description && x.primary
            == y.primary) {
            assert(a@[i as int] != b@[i as int]);
            return false;
        }
        i = i + 1;
    }
    assert(a@ =~= b@);
    true
}

/// Whether the display arrangement changed since the last look. With no
/// earlier look there is nothing to compare against.
pub fn display_layout_changed(previous: Option<&DisplayLayout>, current: &DisplayLayout) -> (changed: bool)
    ensures
        changed == match previous {
            Some(p) => p@ != current@,
            None => false,
        },
{
    match previous {
        Some(p) => !same_layout(p, current),
        None => false,
    }
}

/// The index of the first attached primary device, if any.
pub open spec fn first_primary(devices: Seq<DisplayDeviceInfo>) -> Option<int>
    decreases devices.len(),
{
    if devices.len() == 0 {
        None
    } else {
        match first_primary(devices.drop_last()) {
            Some(i) => Some(i),
            None => if is_attached(devices.last().state_flags) && is_primary(
                devices.last().state_flags,
            ) {
                Some(devices.len() - 1)
            } else {
                None
            },
        }
    }
}

proof fn lemma_first_primary(devices: Seq<DisplayDeviceInfo>)
    ensures
        first_primary(devices) matches Some(i) ==> 0 <= i < devices.len() && is_attached(
            devices[i].state_flags,
        ) && is_primary(devices[i].state_flags) && forall|j: int|
            0 <= j < i ==> !(is_attached(devices[j].state_flags) && is_primary(
                devices[j].state_flags,
            )),
        first_primary(devices) is None ==> forall|j: int|
            0 <= j < devices.len() ==> !(is_attached(devices[j].state_flags) && is_primary(
                devices[j].state_flags,
            )),
    decreases devices.len(),
{
    if devices.len() > 0 {
        let init = devices.drop_last();
        lemma_first_primary(init);
        assert forall|j: int| 0 <= j < init.len() implies init[j] == devices[j] by {}
    }
}

/// The primary display's device name as a wide string: the full name buffer
/// of the first attached primary device, or else `fallback`, the name of the
/// monitor Windows calls primary.
pub fn primary_display_device_name_wide(devices: &Vec<DisplayDeviceInfo>, fallback: Option<Vec<u16>>) -> (name: Option<Vec<u16>>)
    ensures
        match first_primary(devices@) {
            Some(i) => name matches Some(n) && n@ == devices@[i].device_name@,
            None => name == fallback,
        },
{
    let mut i: usize = 0;
    while i < devices.len()
        invariant
            i <= devices.len(),
            forall|j: int|
                0 <= j < i ==> !(is_attached(devices@[j].state_flags) && is_primary(
                    devices@[j].state_flags,
                )),
        decreases devices.len() - i,
    {
        let flags = devices[i].state_flags;
        if flags & DISPLAY_DEVICE_ATTACHED_TO_DESKTOP != 0 && flags & DISPLAY_DEVICE_PRIMARY_DEVICE
            != 0 {
            proof {
                lemma_first_primary(devices@);
                if let Some(k) = first_primary(devices@) {
                    if k > i {
                        assert(is_attached(devices@[i as int].state_flags));
                    }
                }
            }
            return Some(devices[i].device_name.clone());
        }
        i = i + 1;
    }
    proof {
        lemma_first_primary(devices@);
    }
    fallback
}

/// Whether displays are in name order.
pub open spec fn sorted_by_name(s: Seq<IdentityView>) -> bool {
    forall|i: int, j: int| 0 <= i < j < s.len() ==> name_le(#[trigger] s[i].0, #[trigger] s[j].0)
}

proof fn name_le_total(a: Seq<char>, b: Seq<char>)
    ensures
        name_le(a, b) || name_le(b, a),
    decreases a.len(),
{
    if a.len() > 0 && b.len() > 0 {
        if a[0] == b[0] {
            name_le_total(a.drop_first(), b.drop_first());
        } else {
            let x = a[0];
            let y = b[0];
            assert((x as u32) != (y as u32)) by {
                if (x as u32) == (y as u32) {
                    vstd::utf8::char_u32_cast(x, x as u32);
                    vstd::utf8::char_u32_cast(y, y as u32);
                }
            }
        }
    }
}

proof fn name_le_transitive(a: Seq<char>, b: Seq<char>, c: Seq<char>)
    requires
        name_le(a, b),
        name_le(b, c),
    ensures
        name_le(a, c),
    decreases a.len(),
{
    if a.len() > 0 && a[0] == b[0] && b[0] == c[0] {
        name_le_transitive(a.drop_first(), b.drop_first(), c.drop_first());
    }
}

proof fn insert_keeps_everything(s: Seq<IdentityView>, d: IdentityView)
    ensures
        insert_by_name(s, d).len() == s.len() + 1,
        insert_by_name(s, d).to_multiset() == s.to_multiset().insert(d),
        forall|k: int| 0 <= k < insert_by_name(s, d).len() ==> #[trigger] insert_by_name(s, d)[k] == d
            || s.contains(insert_by_name(s, d)[k]),
    decreases s.len(),
{
    broadcast use vstd::seq_lib::group_to_multiset_ensures;

    if s.len() == 0 {
        assert(insert_by_name(s, d) =~= seq![d]);
        assert(s.to_multiset() =~= vstd::multiset::Multiset::empty());
        assert(seq![d].to_multiset() =~= vstd::multiset::Multiset::empty().insert(d)) by {
            assert(seq![d] =~= Seq::<IdentityView>::empty().push(d));
        }
    } else if name_le(s.last().0, d.0) {
    } else {
        let rest = s.drop_last();
        insert_keeps_everything(rest, d);
        let ins = insert_by_name(rest, d);
        assert(s =~= rest.push(s.last()));
        assert forall|k: int| 0 <= k < insert_by_name(s, d).len() implies #[trigger] insert_by_name(s, d)[k] == d
            || s.contains(insert_by_name(s, d)[k]) by {
            if k < ins.len() {
                if ins[k] != d {
                    let w = choose|w: int| 0 <= w < rest.len() && rest[w] == ins[k];
                    assert(s[w] == ins[k]);
                }
            } else {
                assert(insert_by_name(s, d)[k] == s.last());
                assert(s[s.len() - 1] == s.last());
            }
        }
    }
}

proof fn insert_keeps_order(s: Seq<IdentityView>, d: IdentityView)
    requires
        sorted_by_name(s),
    ensures
        sorted_by_name(insert_by_name(s, d)),
    decreases s.len(),
{
    insert_keeps_everything(s, d);
    if s.len() == 0 {
    } else if name_le(s.last().0, d.0) {
        let ins = insert_by_name(s, d);
        assert forall|i: int, j: int| 0 <= i < j < ins.len() implies name_le(#[trigger] ins[i].0, #[trigger] ins[j].0) by {
            if j == s.len() {
                if i < s.len() - 1 {
                    name_le_transitive(s[i].0, s.last().0, d.0);
                }
            }
        }
    } else {
        let rest = s.drop_last();
        let last = s.last();
        insert_keeps_order(rest, d);
        insert_keeps_everything(rest, d);
        name_le_total(last.0, d.0);
        let inner = insert_by_name(rest, d);
        let ins = insert_by_name(s, d);
        assert(ins == inner.push(last));
        assert forall|i: int, j: int| 0 <= i < j < ins.len() implies name_le(#[trigger] ins[i].0, #[trigger] ins[j].0) by {
            if j == ins.len() - 1 {
                assert(ins[j] == last);
                assert(ins[i] == inner[i]);
                if inner[i] != d {
                    let w = choose|w: int| 0 <= w < rest.len() && rest[w] == inner[i];
                    assert(s[w] == rest[w]);
                    assert(s[s.len() - 1] == last);
                }
            } else {
                assert(ins[i] == inner[i]);
                assert(ins[j] == inner[j]);
            }
        }
    }
}

/// The layout is in name order and holds exactly the attached displays, each
/// as often as enumeration reported it: sorting loses and invents nothing.
pub proof fn the_layout_is_a_name_ordered_permutation(displays: Seq<IdentityView>)
    ensures
        sorted_by_name(sort_by_name(displays)),
        sort_by_name(displays).to_multiset() == displays.to_multiset(),
    decreases displays.len(),
{
    broadcast use vstd::seq_lib::group_to_multiset_ensures;

    if displays.len() > 0 {
        let rest = displays.drop_last();
        the_layout_is_a_name_ordered_permutation(rest);
        insert_keeps_order(sort_by_name(rest), displays.last());
        insert_keeps_everything(sort_by_name(rest), displays.last());
        assert(displays =~= rest.push(displays.last()));
    }
}

} // verus!
