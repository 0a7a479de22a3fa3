//! Character-level helpers shared by the modules that handle labels,
//! commands and process names.

use vstd::prelude::*;
use vstd::string::*;

verus! {

/// Unicode `White_Space`, the set `char::is_whitespace` and `str::trim` use.
pub open spec fn is_white_space(c: char) -> bool {
    let u = c as u32;
    ||| 0x09 <= u <= 0x0d
    ||| u == 0x20
    ||| u == 0x85
    ||| u == 0xa0
    ||| u == 0x1680
    ||| 0x2000 <= u <= 0x200a
    ||| u == 0x2028
    ||| u == 0x2029
    ||| u == 0x202f
    ||| u == 0x205f
    ||| u == 0x3000
}

/// Whether a string still has something left after trimming white space.
pub open spec fn has_visible(s: Seq<char>) -> bool {
    exists|i: int| 0 <= i < s.len() && !is_white_space(#[trigger] s[i])
}

pub fn is_white_space_char(c: char) -> (b: bool)
    ensures
        b == is_white_space(c),
{
    let u = c as u32;
    (0x09 <= u && u <= 0x0d) || u == 0x20 || u == 0x85 || u == 0xa0 || u == 0x1680 || (0x2000
        <= u && u <= 0x200a) || u == 0x2028 || u == 0x2029 || u == 0x202f || u == 0x205f || u
        == 0x3000
}

/// The characters of a string, in order.
pub fn chars_of(s: &str) -> (v: Vec<char>)
    ensures
        v@ == s@,
{
    let n = s.unicode_len();
    let mut v: Vec<char> = Vec::new();
    let mut i: usize = 0;
    while i < n
        invariant
            n == s@.len(),
            i <= n,
            v@ == s@.subrange(0, i as int),
        decreases n - i,
    {
        v.push(s.get_char(i));
        i = i + 1;
    }
    assert(v@ =~= s@);
    v
}

/// `!s.trim().is_empty()`.
pub fn is_not_blank(s: &str) -> (b: bool)
    ensures
        b == has_visible(s@),
{
    let chars = chars_of(s);
    let mut i: usize = 0;
    while i < chars.len()
        invariant
            chars@ == s@,
            i <= chars.len(),
            forall|j: int| 0 <= j < i ==> is_white_space(#[trigger] chars@[j]),
        decreases chars.len() - i,
    {
        if !is_white_space_char(chars[i]) {
            return true;
        }
        i = i + 1;
    }
    false
}

} // verus!

verus! {

/// Appends one character to a string (`String::push`).
#[verifier::external_body]
pub(crate) fn push_char(s: &mut String, c: char)
    ensures
        final(s)@ == old(s)@.push(c),
{
    s.push(c);
}

/// A string holding exactly the given characters, in order.
pub fn string_from_chars(chars: &[char]) -> (s: String)
    ensures
        s@ == chars@,
{
    let mut s = String::new();
    let mut i: usize = 0;
    while i < chars.len()
        invariant
            i <= chars.len(),
            s@ == chars@.take(i as int),
        decreases chars.len() - i,
    {
        push_char(&mut s, chars[i]);
        proof {
            assert(chars@.take(i as int + 1) =~= chars@.take(i as int).push(chars@[i as int]));
        }
        i = i + 1;
    }
    assert(chars@.take(chars.len() as int) =~= chars@);
    s
}

/// ASCII case folding of one character, as `char::to_ascii_lowercase` does.
pub open spec fn ascii_lower(c: char) -> char {
    if 'A' <= c && c <= 'Z' {
        ((c as u32) + 32) as char
    } else {
        c
    }
}

/// Equality of two strings up to ASCII case, as `str::eq_ignore_ascii_case`.
pub open spec fn eq_ignore_ascii_case_spec(a: Seq<char>, b: Seq<char>) -> bool {
    a.len() == b.len() && forall|i: int| 0 <= i < a.len() ==> ascii_lower(#[trigger] a[i])
        == ascii_lower(b[i])
}

pub fn to_ascii_lower(c: char) -> (l: char)
    ensures
        l == ascii_lower(c),
{
    if 'A' <= c && c <= 'Z' {
        let b: u8 = (c as u8) + 32;
        b as char
    } else {
        c
    }
}

pub fn eq_ignore_ascii_case(a: &str, b: &str) -> (eq: bool)
    ensures
        eq == eq_ignore_ascii_case_spec(a@, b@),
{
    let x = chars_of(a);
    let y = chars_of(b);
    if x.len() != y.len() {
        return false;
    }
    let mut i: usize = 0;
    while i < x.len()
        invariant
            x@ == a@,
            y@ == b@,
            x.len() == y.len(),
            i <= x.len(),
            forall|j: int| 0 <= j < i ==> ascii_lower(#[trigger] x@[j]) == ascii_lower(y@[j]),
        decreases x.len() - i,
    {
        if to_ascii_lower(x[i]) != to_ascii_lower(y[i]) {
            return false;
        }
        i = i + 1;
    }
    true
}

/// Whether two strings hold the same characters.
pub fn same_text(a: &str, b: &str) -> (same: bool)
    ensures
        same == (a@ == b@),
{
    let x = chars_of(a);
    let y = chars_of(b);
    if x.len() != y.len() {
        return false;
    }
    let mut i: usize = 0;
    while i < x.len()
        invariant
            x@ == a@,
            y@ == b@,
            x.len() == y.len(),
            i <= x.len(),
            forall|j: int| 0 <= j < i ==> #[trigger] x@[j] == y@[j],
        decreases x.len() - i,
    {
        if x[i] != y[i] {
            return false;
        }
        i = i + 1;
    }
    assert(x@ =~= y@);
    true
}

/// `a` followed by `b`, as one string.
pub fn concat(a: &str, b: &str) -> (joined: String)
    ensures
        joined@ == a@ + b@,
{
    let mut chars = chars_of(a);
    let mut tail = chars_of(b);
    chars.append(&mut tail);
    string_from_chars(chars.as_slice())
}

/// Whether `word` occurs in `text` starting at `at`.
pub open spec fn contains_at(text: Seq<char>, word: Seq<char>, at: int) -> bool {
    0 <= at && at + word.len() <= text.len() && text.subrange(at, at + word.len()) == word
}

/// Whether `word` occurs anywhere in `text`.
pub open spec fn contains_word(text: Seq<char>, word: Seq<char>) -> bool {
    exists|at: int| contains_at(text, word, at)
}

fn matches_at(text: &Vec<char>, word: &Vec<char>, at: usize) -> (m: bool)
    requires
        at + word.len() <= text.len(),
    ensures
        m == (text@.subrange(at as int, at + word.len()) == word@),
{
    let mut k: usize = 0;
    while k < word.len()
        invariant
            k <= word.len(),
            at + word.len() <= text.len(),
            forall|j: int| 0 <= j < k ==> text@[at + j] == word@[j],
        decreases word.len() - k,
    {
        if text[at + k] != word[k] {
            assert(text@.subrange(at as int, at + word.len())[k as int] != word@[k as int]);
            return false;
        }
        k = k + 1;
    }
    assert(text@.subrange(at as int, at + word.len()) =~= word@);
    true
}

/// Whether `word` occurs in `text` (`str::contains`).
pub fn contains_text(text: &str, word: &str) -> (found: bool)
    ensures
        found == contains_word(text@, word@),
{
    let t = chars_of(text);
    let w = chars_of(word);
    if t.len() < w.len() {
        assert forall|at: int| !contains_at(text@, word@, at) by {}
        return false;
    }
    if w.len() == 0 {
        assert(text@.subrange(0, 0) =~= word@);
        assert(contains_at(text@, word@, 0));
        return true;
    }
    let last = t.len() - w.len();
    let mut at: usize = 0;
    while at <= last
        invariant
            t@ == text@,
            w@ == word@,
            w.len() >= 1,
            last + w.len() == t.len(),
            at <= last + 1,
            forall|a: int| 0 <= a < at ==> !contains_at(text@, word@, a),
        decreases last + 1 - at,
    {
        if matches_at(&t, &w, at) {
            assert(contains_at(text@, word@, at as int));
            return true;
        }
        at = at + 1;
    }
    assert forall|a: int| !contains_at(text@, word@, a) by {
        if 0 <= a && a + word@.len() <= text@.len() {
            assert(a < at);
        }
    }
    false
}

/// ASCII upper-casing of one character, as `char::to_ascii_uppercase` does.
pub open spec fn ascii_upper(c: char) -> char {
    if 'a' <= c && c <= 'z' {
        ((c as u32) - 32) as char
    } else {
        c
    }
}

/// `str::to_ascii_uppercase`.
pub fn to_ascii_uppercase(s: &str) -> (upper: String)
    ensures
        upper@ == s@.map_values(|c: char| ascii_upper(c)),
{
    let chars = chars_of(s);
    let mut out: Vec<char> = Vec::new();
    let mut i: usize = 0;
    while i < chars.len()
        invariant
            chars@ == s@,
            i <= chars.len(),
            out@ =~= s@.take(i as int).map_values(|c: char| ascii_upper(c)),
        decreases chars.len() - i,
    {
        let c = chars[i];
        let u = if 'a' <= c && c <= 'z' {
            let b: u8 = (c as u8) - 32;
            b as char
        } else {
            c
        };
        out.push(u);
        i = i + 1;
        assert(out@ =~= s@.take(i as int).map_values(|c: char| ascii_upper(c)));
    }
    assert(s@.take(chars.len() as int) =~= s@);
    string_from_chars(out.as_slice())
}

} // verus!
