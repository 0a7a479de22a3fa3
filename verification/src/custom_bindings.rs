//! The user's own key bindings, and what running one of them amounts to.
//!
//! The tables are replaced whenever the settings window saves and are looked
//! up by raw key code, so a Hypershift binding can use any virtual key. Both
//! dispatch sites consult these tables before the built-in map, so a binding
//! the user made always wins over the stock behaviour of that key.

use vstd::prelude::*;

use crate::binding::{Chord, KeyAction, KeyActionView, KeyBinding, KeyBindings, MOD_ALT, MOD_CTRL, MOD_SHIFT, MOD_WIN};
use crate::text::{chars_of, has_visible, is_not_blank, string_from_chars};

verus! {

/// The mathematical value of one row of the Keys page.
pub struct KeyBindingView {
    pub key_code: u16,
    pub label: Seq<char>,
    pub action: KeyActionView,
}

impl View for KeyBinding {
    type V = KeyBindingView;

    open spec fn view(&self) -> KeyBindingView {
        KeyBindingView { key_code: self.key_code, label: self.label@, action: self.action@ }
    }
}

/// The rows of a table that are finished actions, as (code, action), in row
/// order.
pub open spec fn complete_entries(rows: Seq<KeyBindingView>) -> Seq<(u16, KeyActionView)>
    decreases rows.len(),
{
    if rows.len() == 0 {
        Seq::empty()
    } else {
        let rest = complete_entries(rows.drop_last());
        let row = rows.last();
        if row.action.is_complete() {
            rest.push((row.key_code, row.action))
        } else {
            rest
        }
    }
}

/// The action a table gives a code: the last entry for that code wins.
pub open spec fn last_entry_for(entries: Seq<(u16, KeyActionView)>, code: u16) -> Option<KeyActionView>
    decreases entries.len(),
{
    if entries.len() == 0 {
        None
    } else if entries.last().0 == code {
        Some(entries.last().1)
    } else {
        last_entry_for(entries.drop_last(), code)
    }
}

/// What a table of rows binds a code to: the last complete row for that
/// code, or nothing.
pub open spec fn resolve(rows: Seq<KeyBindingView>, code: u16) -> Option<KeyActionView> {
    last_entry_for(complete_entries(rows), code)
}

/// One entry of a resolved table.
pub struct ResolvedEntry {
    pub key_code: u16,
    pub action: KeyAction,
}

/// The installed tables, with unfinished rows already dropped.
pub struct ResolvedBindings {
    pub razer: Vec<ResolvedEntry>,
    pub hypershift: Vec<ResolvedEntry>,
}

pub open spec fn entries_view(entries: Seq<ResolvedEntry>) -> Seq<(u16, KeyActionView)> {
    entries.map_values(|e: ResolvedEntry| (e.key_code, e.action@))
}

impl ResolvedBindings {
    pub open spec fn razer_view(&self) -> Seq<(u16, KeyActionView)> {
        entries_view(self.razer@)
    }

    pub open spec fn hypershift_view(&self) -> Seq<(u16, KeyActionView)> {
        entries_view(self.hypershift@)
    }

    /// No bindings at all.
    pub fn new() -> (table: ResolvedBindings)
        ensures
            table.razer_view() == Seq::<(u16, KeyActionView)>::empty(),
            table.hypershift_view() == Seq::<(u16, KeyActionView)>::empty(),
    {
        let table = ResolvedBindings { razer: Vec::new(), hypershift: Vec::new() };
        assert(table.razer_view() =~= Seq::<(u16, KeyActionView)>::empty());
        assert(table.hypershift_view() =~= Seq::<(u16, KeyActionView)>::empty());
        table
    }
}

/// The finished rows of one table, in row order.
pub fn lookup(rows: &Vec<KeyBinding>) -> (entries: Vec<ResolvedEntry>)
    ensures
        entries_view(entries@) == complete_entries(rows@.map_values(|r: KeyBinding| r@)),
{
    let ghost views = rows@.map_values(|r: KeyBinding| r@);
    let mut entries: Vec<ResolvedEntry> = Vec::new();
    let mut i: usize = 0;
    while i < rows.len()
        invariant
            i <= rows.len(),
            views == rows@.map_values(|r: KeyBinding| r@),
            entries_view(entries@) == complete_entries(views.take(i as int)),
        decreases rows.len() - i,
    {
        let row = &rows[i];
        proof {
            assert(views.take(i as int + 1).drop_last() =~= views.take(i as int));
            assert(views.take(i as int + 1).last() == row@);
        }
        if row.action.is_complete() {
            let entry = ResolvedEntry { key_code: row.key_code, action: row.action.duplicate() };
            let ghost before = entries@;
            entries.push(entry);
            proof {
                assert(entries_view(entries@) =~= entries_view(before).push(
                    (row.key_code, row.action@),
                ));
            }
        }
        i = i + 1;
    }
    assert(views.take(rows.len() as int) =~= views);
    entries
}

/// Installs a new set of bindings, replacing whatever was loaded before.
/// Unfinished rows are dropped here rather than at every press.
pub fn replace(table: &mut ResolvedBindings, bindings: &KeyBindings)
    ensures
        final(table).razer_view() == complete_entries(
            bindings.razer@.map_values(|r: KeyBinding| r@),
        ),
        final(table).hypershift_view() == complete_entries(
            bindings.hypershift@.map_values(|r: KeyBinding| r@),
        ),
{
    table.razer = lookup(&bindings.razer);
    table.hypershift = lookup(&bindings.hypershift);
}

fn find_last(entries: &Vec<ResolvedEntry>, code: u16) -> (found: Option<KeyAction>)
    ensures
        match found {
            Some(a) => Some(a@),
            None => None,
        } == last_entry_for(entries_view(entries@), code),
{
    let ghost ev = entries_view(entries@);
    let mut i: usize = entries.len();
    assert(ev.take(entries.len() as int) =~= ev);
    while i > 0
        invariant
            i <= entries.len(),
            ev == entries_view(entries@),
            last_entry_for(ev, code) == last_entry_for(ev.take(i as int), code),
        decreases i,
    {
        let entry = &entries[i - 1];
        proof {
            assert(ev.take(i as int).drop_last() =~= ev.take(i as int - 1));
            assert(ev.take(i as int).last() == (entry.key_code, entry.action@));
        }
        if entry.key_code == code {
            return Some(entry.action.duplicate());
        }
        i = i - 1;
    }
    None
}

/// The action bound to a Razer special key, if the user bound one.
pub fn razer(table: &ResolvedBindings, key_code: u8) -> (found: Option<KeyAction>)
    ensures
        match found {
            Some(a) => Some(a@),
            None => None,
        } == last_entry_for(table.razer_view(), key_code as u16),
{
    find_last(&table.razer, key_code as u16)
}

/// The action bound to a key held with Fn, if the user bound one.
pub fn hypershift(table: &ResolvedBindings, virtual_key: u8) -> (found: Option<KeyAction>)
    ensures
        match found {
            Some(a) => Some(a@),
            None => None,
        } == last_entry_for(table.hypershift_view(), virtual_key as u16),
{
    find_last(&table.hypershift, virtual_key as u16)
}

/// What a table resolves a code to is the action of the last complete row
/// for that code, and a code no complete row names resolves to nothing: an
/// unfinished row never binds its key, and a later row overrides an earlier
/// one.
pub proof fn resolution_is_last_complete_row(rows: Seq<KeyBindingView>, code: u16)
    ensures
        resolve(rows, code) matches Some(a) ==> a.is_complete() && exists|i: int|
            0 <= i < rows.len() && (#[trigger] rows[i]).key_code == code && rows[i].action == a
                && rows[i].action.is_complete() && forall|j: int|
                i < j < rows.len() ==> !((#[trigger] rows[j]).key_code == code
                    && rows[j].action.is_complete()),
        resolve(rows, code) is None ==> forall|i: int|
            0 <= i < rows.len() ==> !((#[trigger] rows[i]).key_code == code
                && rows[i].action.is_complete()),
    decreases rows.len(),
{
    if rows.len() > 0 {
        let init = rows.drop_last();
        resolution_is_last_complete_row(init, code);
        let row = rows.last();
        let n = rows.len() - 1;
        assert(rows[n] == row);
        assert forall|i: int| 0 <= i < init.len() implies #[trigger] init[i] == rows[i] by {}
        if row.action.is_complete() && row.key_code == code {
            assert(complete_entries(rows) == complete_entries(init).push((row.key_code, row.action)));
        } else if row.action.is_complete() {
            assert(complete_entries(rows) == complete_entries(init).push((row.key_code, row.action)));
            assert(complete_entries(rows).drop_last() =~= complete_entries(init));
            assert(resolve(rows, code) == resolve(init, code));
            if resolve(rows, code) is None {
                assert forall|i: int| 0 <= i < rows.len() implies !((#[trigger] rows[i]).key_code
                    == code && rows[i].action.is_complete()) by {
                    if i < n {
                        assert(rows[i] == init[i]);
                    }
                }
            }
            if let Some(a) = resolve(rows, code) {
                let i = choose|i: int|
                    0 <= i < init.len() && (#[trigger] init[i]).key_code == code && init[i].action
                        == a && init[i].action.is_complete() && forall|j: int|
                        i < j < init.len() ==> !((#[trigger] init[j]).key_code == code
                            && init[j].action.is_complete());
                assert(rows[i] == init[i]);
                assert forall|j: int| i < j < rows.len() implies !((#[trigger] rows[j]).key_code
                    == code && rows[j].action.is_complete()) by {
                    if j < n {
                        assert(rows[j] == init[j]);
                    }
                }
            }
        } else {
            assert(complete_entries(rows) == complete_entries(init));
            if resolve(rows, code) is None {
                assert forall|i: int| 0 <= i < rows.len() implies !((#[trigger] rows[i]).key_code
                    == code && rows[i].action.is_complete()) by {
                    if i < n {
                        assert(rows[i] == init[i]);
                    }
                }
            }
            if let Some(a) = resolve(rows, code) {
                let i = choose|i: int|
                    0 <= i < init.len() && (#[trigger] init[i]).key_code == code && init[i].action
                        == a && init[i].action.is_complete() && forall|j: int|
                        i < j < init.len() ==> !((#[trigger] init[j]).key_code == code
                            && init[j].action.is_complete());
                assert(rows[i] == init[i]);
                assert forall|j: int| i < j < rows.len() implies !((#[trigger] rows[j]).key_code
                    == code && rows[j].action.is_complete()) by {
                    if j < n {
                        assert(rows[j] == init[j]);
                    }
                }
            }
        }
    }
}

// ---------------------------------------------------------------------------
// Synthesized keystrokes
// ---------------------------------------------------------------------------

/// A key to synthesize. The named modifiers are the left-hand ones the
/// runtime presses; any other key is sent by its virtual-key code.
#[derive(Clone, Copy, Debug, PartialEq, Eq, Structural)]
pub enum SynthKey {
    ControlLeft,
    Alt,
    ShiftLeft,
    MetaLeft,
    KeyP,
    PrintScreen,
    Code(u32),
}

pub open spec fn modifier_keys(modifiers: u8) -> Seq<SynthKey> {
    (if modifiers & MOD_CTRL != 0 { seq![SynthKey::ControlLeft] } else { Seq::empty() }) + (
    if modifiers & MOD_ALT != 0 {
        seq![SynthKey::Alt]
    } else {
        Seq::empty()
    }) + (if modifiers & MOD_SHIFT != 0 {
        seq![SynthKey::ShiftLeft]
    } else {
        Seq::empty()
    }) + (if modifiers & MOD_WIN != 0 {
        seq![SynthKey::MetaLeft]
    } else {
        Seq::empty()
    })
}

/// The keys of a chord, modifiers first so they wrap the key: a combo is
/// pressed in order and released in reverse.
pub open spec fn spec_chord_keys(chord: Chord) -> Seq<SynthKey> {
    modifier_keys(chord.modifiers).push(SynthKey::Code(chord.key as u32))
}

proof fn lemma_optional_key_contains(present: bool, key: SynthKey, x: SynthKey)
    ensures
        (if present { seq![key] } else { Seq::<SynthKey>::empty() }).contains(x) <==> (present && x == key),
{
    if present && x == key {
        assert(seq![key][0] == x);
    }
}

proof fn lemma_concat_contains(a: Seq<SynthKey>, b: Seq<SynthKey>, x: SynthKey)
    ensures
        (a + b).contains(x) <==> (a.contains(x) || b.contains(x)),
{
    if a.contains(x) {
        let i = choose|i: int| 0 <= i < a.len() && a[i] == x;
        assert((a + b)[i] == x);
    }
    if b.contains(x) {
        let i = choose|i: int| 0 <= i < b.len() && b[i] == x;
        assert((a + b)[a.len() + i] == x);
    }
    if (a + b).contains(x) {
        let i = choose|i: int| 0 <= i < (a + b).len() && (a + b)[i] == x;
        if i < a.len() {
            assert(a[i] == x);
        } else {
            assert(b[i - a.len()] == x);
        }
    }
}

/// The keys of a chord hold each left-hand modifier exactly when the chord's
/// modifier bits name it, whatever the other bits are; they end with the
/// chord's own key, and no other key is sent.
pub proof fn a_chord_sends_exactly_its_modifiers_and_key(chord: Chord)
    ensures
        spec_chord_keys(chord).contains(SynthKey::ControlLeft) <==> chord.modifiers & MOD_CTRL != 0,
        spec_chord_keys(chord).contains(SynthKey::Alt) <==> chord.modifiers & MOD_ALT != 0,
        spec_chord_keys(chord).contains(SynthKey::ShiftLeft) <==> chord.modifiers & MOD_SHIFT != 0,
        spec_chord_keys(chord).contains(SynthKey::MetaLeft) <==> chord.modifiers & MOD_WIN != 0,
        spec_chord_keys(chord).last() == SynthKey::Code(chord.key as u32),
        forall|i: int| 0 <= i < spec_chord_keys(chord).len() - 1 ==> !(#[trigger] spec_chord_keys(chord)[i] is Code),
        !spec_chord_keys(chord).contains(SynthKey::KeyP),
        !spec_chord_keys(chord).contains(SynthKey::PrintScreen),
{
    let m = chord.modifiers;
    let c = if m & MOD_CTRL != 0 { seq![SynthKey::ControlLeft] } else { Seq::<SynthKey>::empty() };
    let a = if m & MOD_ALT != 0 { seq![SynthKey::Alt] } else { Seq::<SynthKey>::empty() };
    let s = if m & MOD_SHIFT != 0 { seq![SynthKey::ShiftLeft] } else { Seq::<SynthKey>::empty() };
    let w = if m & MOD_WIN != 0 { seq![SynthKey::MetaLeft] } else { Seq::<SynthKey>::empty() };
    let k = seq![SynthKey::Code(chord.key as u32)];
    assert(modifier_keys(m) == c + a + s + w);
    assert(spec_chord_keys(chord) =~= c + a + s + w + k);
    assert forall|x: SynthKey| spec_chord_keys(chord).contains(x) <==> ((m & MOD_CTRL != 0
        && x == SynthKey::ControlLeft) || (m & MOD_ALT != 0 && x == SynthKey::Alt) || (m
        & MOD_SHIFT != 0 && x == SynthKey::ShiftLeft) || (m & MOD_WIN != 0 && x
        == SynthKey::MetaLeft) || x == SynthKey::Code(chord.key as u32)) by {
        lemma_concat_contains(c + a + s + w, k, x);
        lemma_concat_contains(c + a + s, w, x);
        lemma_concat_contains(c + a, s, x);
        lemma_concat_contains(c, a, x);
        lemma_optional_key_contains(m & MOD_CTRL != 0, SynthKey::ControlLeft, x);
        lemma_optional_key_contains(m & MOD_ALT != 0, SynthKey::Alt, x);
        lemma_optional_key_contains(m & MOD_SHIFT != 0, SynthKey::ShiftLeft, x);
        lemma_optional_key_contains(m & MOD_WIN != 0, SynthKey::MetaLeft, x);
        lemma_optional_key_contains(true, SynthKey::Code(chord.key as u32), x);
    }
    let mods = c + a + s + w;
    assert forall|i: int| 0 <= i < spec_chord_keys(chord).len() - 1 implies !(
    #[trigger] spec_chord_keys(chord)[i] is Code) by {
        assert(spec_chord_keys(chord)[i] == mods[i]);
        assert(mods.contains(mods[i]));
        lemma_concat_contains(c + a + s, w, mods[i]);
        lemma_concat_contains(c + a, s, mods[i]);
        lemma_concat_contains(c, a, mods[i]);
        lemma_optional_key_contains(m & MOD_CTRL != 0, SynthKey::ControlLeft, mods[i]);
        lemma_optional_key_contains(m & MOD_ALT != 0, SynthKey::Alt, mods[i]);
        lemma_optional_key_contains(m & MOD_SHIFT != 0, SynthKey::ShiftLeft, mods[i]);
        lemma_optional_key_contains(m & MOD_WIN != 0, SynthKey::MetaLeft, mods[i]);
    }
}

pub fn chord_keys(chord: &Chord) -> (keys: Vec<SynthKey>)
    ensures
        keys@ == spec_chord_keys(*chord),
{
    let mut keys: Vec<SynthKey> = Vec::new();
    if chord.modifiers & MOD_CTRL != 0 {
        keys.push(SynthKey::ControlLeft);
    }
    if chord.modifiers & MOD_ALT != 0 {
        keys.push(SynthKey::Alt);
    }
    if chord.modifiers & MOD_SHIFT != 0 {
        keys.push(SynthKey::ShiftLeft);
    }
    if chord.modifiers & MOD_WIN != 0 {
        keys.push(SynthKey::MetaLeft);
    }
    keys.push(SynthKey::Code(chord.key as u32));
    assert(keys@ =~= spec_chord_keys(*chord));
    keys
}

/// The combos a key or macro action sends: one per complete chord, in order.
pub open spec fn spec_combos(steps: Seq<Chord>) -> Seq<Seq<SynthKey>>
    decreases steps.len(),
{
    if steps.len() == 0 {
        Seq::empty()
    } else {
        let rest = spec_combos(steps.drop_last());
        if steps.last().spec_is_complete() {
            rest.push(spec_chord_keys(steps.last()))
        } else {
            rest
        }
    }
}

/// Whether input is being synthesized by a binding of our own, so the
/// keystrokes it sends cannot be read back as presses and trigger it again.
pub struct SynthesisGuard {
    pub synthesizing: bool,
}

impl SynthesisGuard {
    pub fn new() -> (guard: SynthesisGuard)
        ensures
            !guard.synthesizing,
    {
        SynthesisGuard { synthesizing: false }
    }
}

/// Whether input is currently being synthesized by a binding of our own.
pub fn is_synthesizing(guard: &SynthesisGuard) -> (b: bool)
    ensures
        b == guard.synthesizing,
{
    guard.synthesizing
}

/// Whether running an action hands anything to a worker thread: "do
/// nothing" is not even dispatched, which is what makes it a way to silence
/// a key rather than a no-op worker per press.
pub fn needs_worker(action: &KeyAction) -> (dispatch: bool)
    ensures
        dispatch == !(*action is Nothing),
{
    match action {
        KeyAction::Nothing => false,
        _ => true,
    }
}

/// Starts sending the keystrokes of a key or macro action: raises the guard,
/// so the keyboard hook ignores what is about to be synthesized, and returns
/// the key combos to send, one per complete step in order. The caller sends
/// them and then calls [`keys_sent`].
pub fn send_keys(guard: &mut SynthesisGuard, steps: &[Chord]) -> (combos: Vec<Vec<SynthKey>>)
    ensures
        final(guard).synthesizing,
        combos@.map_values(|c: Vec<SynthKey>| c@) == spec_combos(steps@),
{
    guard.synthesizing = true;
    let mut combos: Vec<Vec<SynthKey>> = Vec::new();
    let mut i: usize = 0;
    while i < steps.len()
        invariant
            i <= steps.len(),
            combos@.map_values(|c: Vec<SynthKey>| c@) == spec_combos(steps@.take(i as int)),
        decreases steps.len() - i,
    {
        let chord = steps[i];
        proof {
            assert(steps@.take(i as int + 1).drop_last() =~= steps@.take(i as int));
            assert(steps@.take(i as int + 1).last() == chord);
        }
        if chord.is_complete() {
            let keys = chord_keys(&chord);
            let ghost before = combos@;
            combos.push(keys);
            proof {
                assert(combos@.map_values(|c: Vec<SynthKey>| c@) =~= before.map_values(
                    |c: Vec<SynthKey>| c@,
                ).push(keys@));
            }
        }
        i = i + 1;
    }
    assert(steps@.take(steps.len() as int) =~= steps@);
    combos
}

/// Lowers the guard once the keystrokes have been sent, whatever became of
/// them, so the hook never ignores the user's own keys afterwards.
pub fn keys_sent(guard: &mut SynthesisGuard)
    ensures
        !final(guard).synthesizing,
{
    guard.synthesizing = false;
}

// ---------------------------------------------------------------------------
// Overlay labels
// ---------------------------------------------------------------------------

/// The overlay text for a command: short enough commands unchanged, longer
/// ones cut to `limit` characters with an ellipsis as the last.
pub open spec fn spec_truncate(text: Seq<char>, limit: nat) -> Seq<char> {
    if text.len() <= limit {
        text
    } else {
        text.take(if limit == 0 { 0int } else { limit - 1 }).push('\u{2026}')
    }
}

/// A shortened label never runs past its limit (the ellipsis alone when the
/// limit is zero), keeps a prefix of the text before the ellipsis, and leaves
/// text that already fits untouched.
pub proof fn truncation_fits_its_limit(text: Seq<char>, limit: nat)
    ensures
        text.len() <= limit ==> spec_truncate(text, limit) == text,
        text.len() > limit ==> spec_truncate(text, limit).len() == if limit == 0 { 1 } else { limit },
        text.len() > limit ==> spec_truncate(text, limit).last() == '\u{2026}',
        text.len() > limit ==> forall|i: int| 0 <= i < spec_truncate(text, limit).len() - 1 ==>
            #[trigger] spec_truncate(text, limit)[i] == text[i],
{
}

pub fn truncate(text: &str, limit: usize) -> (short: String)
    ensures
        short@ == spec_truncate(text@, limit as nat),
{
    let chars = chars_of(text);
    if chars.len() <= limit {
        return string_from_chars(chars.as_slice());
    }
    let keep: usize = if limit == 0 { 0 } else { limit - 1 };
    let mut kept: Vec<char> = Vec::new();
    let mut i: usize = 0;
    while i < keep
        invariant
            keep < chars.len(),
            i <= keep,
            kept@ == chars@.take(i as int),
        decreases keep - i,
    {
        kept.push(chars[i]);
        i = i + 1;
    }
    kept.push('\u{2026}');
    assert(kept@ =~= spec_truncate(text@, limit as nat));
    string_from_chars(kept.as_slice())
}

pub open spec fn is_separator(c: char) -> bool {
    c == '/' || c == '\\'
}

/// A path with its drive prefix (`C:`) taken off.
pub open spec fn without_drive(p: Seq<char>) -> Seq<char> {
    if p.len() >= 2 && p[1] == ':' && (('A' <= p[0] && p[0] <= 'Z') || ('a' <= p[0] && p[0]
        <= 'z')) {
        p.subrange(2, p.len() as int)
    } else {
        p
    }
}

/// A path with trailing separators and trailing `.` components removed.
pub open spec fn trimmed(p: Seq<char>) -> Seq<char>
    decreases p.len(),
{
    if p.len() == 0 {
        p
    } else if is_separator(p.last()) {
        trimmed(p.drop_last())
    } else if p.last() == '.' && (p.len() == 1 || is_separator(p[p.len() - 2])) {
        trimmed(p.drop_last())
    } else {
        p
    }
}

/// Where the last component of a path starts.
pub open spec fn segment_start(p: Seq<char>) -> int
    decreases p.len(),
{
    if p.len() == 0 {
        0
    } else if is_separator(p.last()) {
        p.len() as int
    } else {
        segment_start(p.drop_last())
    }
}

/// The final component of a path, as `Path::file_name` sees it on Windows.
pub open spec fn spec_file_name(p: Seq<char>) -> Option<Seq<char>> {
    let t = trimmed(without_drive(p));
    let name = t.subrange(segment_start(t), t.len() as int);
    if name.len() == 0 || name =~= seq!['.', '.'] {
        None
    } else {
        Some(name)
    }
}

/// Where the last `.` of a name is, or -1.
pub open spec fn last_dot(name: Seq<char>) -> int
    decreases name.len(),
{
    if name.len() == 0 {
        -1
    } else if name.last() == '.' {
        name.len() - 1
    } else {
        last_dot(name.drop_last())
    }
}

/// A file name without its extension, as `Path::file_stem` does: a name
/// whose only dot leads it keeps it.
pub open spec fn spec_stem(name: Seq<char>) -> Seq<char> {
    if last_dot(name) <= 0 {
        name
    } else {
        name.take(last_dot(name))
    }
}

/// The label a launch falls back to: the executable's name without its
/// extension, or the whole path when it has no file name.
pub open spec fn spec_launch_file_name(p: Seq<char>) -> Seq<char> {
    match spec_file_name(p) {
        Some(name) => spec_stem(name),
        None => p,
    }
}

fn trimmed_len(p: &Vec<char>, start: usize) -> (end: usize)
    requires
        start <= p.len(),
    ensures
        start <= end <= p.len(),
        p@.subrange(start as int, end as int) == trimmed(p@.subrange(start as int, p.len() as int)),
{
    let mut end = p.len();
    while end > start
        invariant
            start <= end <= p.len(),
            trimmed(p@.subrange(start as int, end as int)) == trimmed(
                p@.subrange(start as int, p.len() as int),
            ),
        decreases end,
    {
        let s = Ghost(p@.subrange(start as int, end as int));
        assert(s@.drop_last() =~= p@.subrange(start as int, end - 1));
        let c = p[end - 1];
        assert(s@.last() == c);
        if c == '/' || c == '\\' {
            end = end - 1;
        } else if c == '.' && (end - start == 1 || p[end - 2] == '/' || p[end - 2] == '\\') {
            assert(end - start == 1 || s@[s@.len() - 2] == p@[end - 2]);
            end = end - 1;
        } else {
            return end;
        }
    }
    end
}

fn drive_len(p: &Vec<char>) -> (start: usize)
    ensures
        start <= p.len(),
        without_drive(p@) == p@.subrange(start as int, p.len() as int),
{
    if p.len() >= 2 && p[1] == ':' && (('A' <= p[0] && p[0] <= 'Z') || ('a' <= p[0] && p[0]
        <= 'z')) {
        2
    } else {
        assert(p@ =~= p@.subrange(0, p.len() as int));
        0
    }
}

fn segment_begin(p: &Vec<char>, start: usize, end: usize) -> (seg: usize)
    requires
        start <= end <= p.len(),
    ensures
        start <= seg <= end,
        seg - start == segment_start(p@.subrange(start as int, end as int)),
{
    let ghost t = p@.subrange(start as int, end as int);
    let mut seg = end;
    while seg > start
        invariant
            start <= seg <= end,
            end <= p.len(),
            t == p@.subrange(start as int, end as int),
            segment_start(t) == segment_start(p@.subrange(start as int, seg as int)),
        ensures
            start <= seg <= end,
            segment_start(t) == segment_start(p@.subrange(start as int, seg as int)),
            seg > start ==> is_separator(p@[seg - 1]),
        decreases seg,
    {
        let ghost s = p@.subrange(start as int, seg as int);
        assert(s.drop_last() =~= p@.subrange(start as int, seg - 1));
        assert(s.last() == p@[seg - 1]);
        if p[seg - 1] == '/' || p[seg - 1] == '\\' {
            break;
        }
        seg = seg - 1;
    }
    proof {
        let s = p@.subrange(start as int, seg as int);
        if seg > start {
            assert(s.last() == p@[seg - 1]);
        }
    }
    seg
}

fn stem_end(p: &Vec<char>, seg: usize, end: usize) -> (stop: usize)
    requires
        seg < end <= p.len(),
    ensures
        seg <= stop <= end,
        p@.subrange(seg as int, stop as int) == spec_stem(p@.subrange(seg as int, end as int)),
{
    let ghost name = p@.subrange(seg as int, end as int);
    let mut d = end;
    while d > seg
        invariant
            seg <= d <= end,
            end <= p.len(),
            name == p@.subrange(seg as int, end as int),
            last_dot(name) == last_dot(p@.subrange(seg as int, d as int)),
        ensures
            seg <= d <= end,
            last_dot(name) == last_dot(p@.subrange(seg as int, d as int)),
            d > seg ==> p@[d - 1] == '.',
        decreases d,
    {
        let ghost s = p@.subrange(seg as int, d as int);
        assert(s.drop_last() =~= p@.subrange(seg as int, d - 1));
        assert(s.last() == p@[d - 1]);
        if p[d - 1] == '.' {
            break;
        }
        d = d - 1;
    }
    proof {
        if d > seg {
            let s = p@.subrange(seg as int, d as int);
            assert(s.last() == p@[d - 1]);
            assert(last_dot(name) == d - 1 - seg);
        } else {
            assert(last_dot(name) == -1);
        }
    }
    if d > seg + 1 {
        assert(p@.subrange(seg as int, d - 1) =~= name.take(last_dot(name)));
        d - 1
    } else {
        end
    }
}

fn copy_range(p: &Vec<char>, from: usize, to: usize) -> (part: Vec<char>)
    requires
        from <= to <= p.len(),
    ensures
        part@ == p@.subrange(from as int, to as int),
{
    let mut part: Vec<char> = Vec::new();
    let mut i = from;
    while i < to
        invariant
            from <= i <= to,
            to <= p.len(),
            part@ == p@.subrange(from as int, i as int),
        decreases to - i,
    {
        part.push(p[i]);
        assert(p@.subrange(from as int, i + 1) =~= p@.subrange(from as int, i as int).push(p@[i as int]));
        i = i + 1;
    }
    part
}

/// The label a launch falls back to: the executable's name without its
/// extension, or the whole path when it has no file name.
pub fn file_name(path: &str) -> (label: String)
    ensures
        label@ == spec_launch_file_name(path@),
{
    let p = chars_of(path);
    let start = drive_len(&p);
    let end = trimmed_len(&p, start);
    let seg = segment_begin(&p, start, end);
    let ghost t = p@.subrange(start as int, end as int);
    assert(t == trimmed(without_drive(path@)));
    let ghost name = t.subrange(segment_start(t), t.len() as int);
    assert(name =~= p@.subrange(seg as int, end as int));
    let is_dotdot = end - seg == 2 && p[seg] == '.' && p[seg + 1] == '.';
    if seg == end || is_dotdot {
        assert(spec_file_name(path@) is None) by {
            if is_dotdot {
                assert(name =~= seq!['.', '.']);
            }
        }
        return string_from_chars(p.as_slice());
    }
    assert(!(name =~= seq!['.', '.']));
    assert(spec_file_name(path@) == Some(name));
    let stop = stem_end(&p, seg, end);
    let stem = copy_range(&p, seg, stop);
    string_from_chars(stem.as_slice())
}

/// The overlay label for a launch: the name the user gave it, or the
/// executable's name when that is blank.
pub fn launch_label(path: &str, name: &str) -> (label: String)
    ensures
        label@ == (if has_visible(name@) {
            name@
        } else {
            spec_launch_file_name(path@)
        }),
{
    if is_not_blank(name) {
        let chars = chars_of(name);
        string_from_chars(chars.as_slice())
    } else {
        file_name(path)
    }
}

} // verus!
