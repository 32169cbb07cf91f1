//! Character-level grammars for term payloads, and verified checkers.
//!
//! The grammars are stated as spec functions over `Seq<char>`; each exec
//! checker is proved to return exactly what its grammar says.

use vstd::prelude::*;
use vstd::string::StrSliceExecFns;

verus! {

/// A character allowed anywhere in an identifier (IRI reference).
///
/// Controls, space, and the characters that RFC 3987 excludes from IRI
/// references (`<>"{}|\^` and backtick) are refused.
pub open spec fn iri_char_ok(c: char) -> bool {
    c as u32 > 0x20 && c as u32 != 0x7f && c != '<' && c != '>' && c != '"' && c != '{' && c != '}'
        && c != '|' && c != '\\' && c != '^' && c != '`'
}

pub open spec fn is_hex_digit(c: char) -> bool {
    ('0' <= c && c <= '9') || ('a' <= c && c <= 'f') || ('A' <= c && c <= 'F')
}

pub open spec fn is_alpha(c: char) -> bool {
    ('a' <= c && c <= 'z') || ('A' <= c && c <= 'Z')
}

pub open spec fn is_digit(c: char) -> bool {
    '0' <= c && c <= '9'
}

pub open spec fn is_alphanumeric(c: char) -> bool {
    is_alpha(c) || is_digit(c)
}

/// From position `i` on, every character is allowed and every `%` starts a
/// well-formed percent-encoded triplet.
pub open spec fn iri_chars_ok_from(s: Seq<char>, i: int) -> bool
    decreases s.len() - i,
{
    if i < 0 || i >= s.len() {
        true
    } else {
        iri_char_ok(s[i]) && (s[i] == '%' ==> i + 2 < s.len() && is_hex_digit(s[i + 1])
            && is_hex_digit(s[i + 2])) && iri_chars_ok_from(s, i + 1)
    }
}

/// A character allowed in a scheme after its leading letter.
pub open spec fn scheme_char_ok(c: char) -> bool {
    is_alphanumeric(c) || c == '+' || c == '-' || c == '.'
}

pub open spec fn scheme_chars_ok_from(s: Seq<char>, i: int) -> bool
    decreases s.len() - i,
{
    if i < 0 || i >= s.len() {
        true
    } else {
        scheme_char_ok(s[i]) && scheme_chars_ok_from(s, i + 1)
    }
}

/// A valid scheme: a letter followed by letters, digits, `+`, `-` or `.`.
pub open spec fn valid_scheme(s: Seq<char>) -> bool {
    s.len() > 0 && is_alpha(s[0]) && scheme_chars_ok_from(s, 1)
}

/// Whether a character ends the first path segment of a reference.
pub open spec fn seg_delim(c: char) -> bool {
    c == ':' || c == '/' || c == '?' || c == '#'
}

/// Position of the first `:`, `/`, `?` or `#` at or after `i`; the length of
/// `s` if there is none.
pub open spec fn first_seg_delim_from(s: Seq<char>, i: int) -> int
    decreases s.len() - i,
{
    if i < 0 || i >= s.len() {
        s.len() as int
    } else if seg_delim(s[i]) {
        i
    } else {
        first_seg_delim_from(s, i + 1)
    }
}

/// An identifier is absolute iff it starts with a valid scheme followed by a
/// colon (the colon coming before any `/`, `?` or `#`).
pub open spec fn is_absolute_iri(s: Seq<char>) -> bool {
    let k = first_seg_delim_from(s, 0);
    k < s.len() && s[k] == ':' && valid_scheme(s.take(k))
}

/// A syntactically valid (absolute or relative) identifier: all characters
/// allowed, percent-triplets well formed, and if the first path segment is
/// ended by a colon, the part before it must be a valid scheme.
pub open spec fn valid_iri_ref(s: Seq<char>) -> bool {
    let k = first_seg_delim_from(s, 0);
    iri_chars_ok_from(s, 0) && (k < s.len() && s[k] == ':' ==> valid_scheme(s.take(k)))
}

/// A valid language tag: subtags of one to eight characters separated by `-`,
/// the first subtag all letters, the following ones letters or digits.
///
/// `i` is the next position, `run` the length of the current subtag so far,
/// `first` whether the current subtag is the initial one.
pub open spec fn lang_tag_ok_from(s: Seq<char>, i: int, run: int, first: bool) -> bool
    decreases s.len() - i,
{
    if i < 0 || i >= s.len() {
        1 <= run
    } else if s[i] == '-' {
        1 <= run && lang_tag_ok_from(s, i + 1, 0, false)
    } else if (if first {
        is_alpha(s[i])
    } else {
        is_alphanumeric(s[i])
    }) {
        run < 8 && lang_tag_ok_from(s, i + 1, run + 1, first)
    } else {
        false
    }
}

pub open spec fn valid_lang_tag(s: Seq<char>) -> bool {
    lang_tag_ok_from(s, 0, 0, true)
}

/// A valid variable name: non-empty, all letters, digits or underscores.
pub open spec fn variable_chars_ok_from(s: Seq<char>, i: int) -> bool
    decreases s.len() - i,
{
    if i < 0 || i >= s.len() {
        true
    } else {
        (is_alphanumeric(s[i]) || s[i] == '_') && variable_chars_ok_from(s, i + 1)
    }
}

pub open spec fn valid_variable_name(s: Seq<char>) -> bool {
    s.len() > 0 && variable_chars_ok_from(s, 0)
}

/// Every blank node identifier is currently accepted.
pub open spec fn valid_bnode_id(s: Seq<char>) -> bool {
    true
}

fn is_hex_digit_exec(c: char) -> (r: bool)
    ensures
        r == is_hex_digit(c),
{
    ('0' <= c && c <= '9') || ('a' <= c && c <= 'f') || ('A' <= c && c <= 'F')
}

fn is_alpha_exec(c: char) -> (r: bool)
    ensures
        r == is_alpha(c),
{
    ('a' <= c && c <= 'z') || ('A' <= c && c <= 'Z')
}

fn is_alphanumeric_exec(c: char) -> (r: bool)
    ensures
        r == is_alphanumeric(c),
{
    is_alpha_exec(c) || ('0' <= c && c <= '9')
}

fn iri_char_ok_exec(c: char) -> (r: bool)
    ensures
        r == iri_char_ok(c),
{
    c as u32 > 0x20 && c as u32 != 0x7f && c != '<' && c != '>' && c != '"' && c != '{' && c != '}'
        && c != '|' && c != '\\' && c != '^' && c != '`'
}

/// Check all characters and percent-triplets of an identifier.
fn check_iri_chars(s: &str) -> (r: bool)
    ensures
        r == iri_chars_ok_from(s@, 0),
{
    let n = s.unicode_len();
    let mut i: usize = 0;
    while i < n
        invariant
            0 <= i <= n,
            n == s@.len(),
            iri_chars_ok_from(s@, 0) <==> iri_chars_ok_from(s@, i as int),
        decreases n - i,
    {
        let c = s.get_char(i);
        if !iri_char_ok_exec(c) {
            return false;
        }
        if c == '%' {
            if n - i < 3 {
                return false;
            }
            if !is_hex_digit_exec(s.get_char(i + 1)) || !is_hex_digit_exec(s.get_char(i + 2)) {
                return false;
            }
        }
        i = i + 1;
    }
    true
}

/// Find the first `:`, `/`, `?` or `#` of `s`, as `first_seg_delim_from` does.
fn find_first_seg_delim(s: &str) -> (r: usize)
    ensures
        r == first_seg_delim_from(s@, 0),
        r <= s@.len(),
{
    let n = s.unicode_len();
    let mut i: usize = 0;
    while i < n
        invariant
            0 <= i <= n,
            n == s@.len(),
            first_seg_delim_from(s@, 0) == first_seg_delim_from(s@, i as int),
        decreases n - i,
    {
        let c = s.get_char(i);
        if c == ':' || c == '/' || c == '?' || c == '#' {
            return i;
        }
        i = i + 1;
    }
    n
}

/// Check that `s.take(k)` is a valid scheme.
fn check_scheme(s: &str, k: usize) -> (r: bool)
    requires
        k <= s@.len(),
    ensures
        r == valid_scheme(s@.take(k as int)),
{
    let ghost p = s@.take(k as int);
    if k == 0 {
        return false;
    }
    if !is_alpha_exec(s.get_char(0)) {
        return false;
    }
    let mut i: usize = 1;
    while i < k
        invariant
            1 <= i <= k,
            k <= s@.len(),
            p == s@.take(k as int),
            p.len() == k,
            forall|j: int| 0 <= j < k ==> p[j] == s@[j],
            is_alpha(p[0]),
            scheme_chars_ok_from(p, 1) <==> scheme_chars_ok_from(p, i as int),
        decreases k - i,
    {
        let c = s.get_char(i);
        if !(is_alphanumeric_exec(c) || c == '+' || c == '-' || c == '.') {
            assert(!scheme_chars_ok_from(p, i as int));
            return false;
        }
        i = i + 1;
    }
    true
}

/// Decide validity and absoluteness of an identifier in one pass.
///
/// Returns `None` when the text is not a valid identifier, and otherwise
/// `Some(abs)` where `abs` says whether the identifier is absolute.
pub fn check_iri_ref(s: &str) -> (r: Option<bool>)
    ensures
        r is Some <==> valid_iri_ref(s@),
        r matches Some(abs) ==> abs == is_absolute_iri(s@),
{
    if !check_iri_chars(s) {
        return None;
    }
    let k = find_first_seg_delim(s);
    let n = s.unicode_len();
    if k < n && s.get_char(k) == ':' {
        if check_scheme(s, k) {
            Some(true)
        } else {
            None
        }
    } else {
        Some(false)
    }
}

/// Decide whether an identifier already known or assumed valid is absolute.
pub fn check_absolute(s: &str) -> (r: bool)
    ensures
        r == is_absolute_iri(s@),
{
    let k = find_first_seg_delim(s);
    let n = s.unicode_len();
    k < n && s.get_char(k) == ':' && check_scheme(s, k)
}

/// Decide whether `s` is a valid language tag.
pub fn check_lang_tag(s: &str) -> (r: bool)
    ensures
        r == valid_lang_tag(s@),
{
    let n = s.unicode_len();
    let mut i: usize = 0;
    let mut run: u8 = 0;
    let mut first: bool = true;
    while i < n
        invariant
            0 <= i <= n,
            n == s@.len(),
            0 <= run <= 8,
            valid_lang_tag(s@) <==> lang_tag_ok_from(s@, i as int, run as int, first),
        decreases n - i,
    {
        let c = s.get_char(i);
        if c == '-' {
            if run == 0 {
                return false;
            }
            run = 0;
            first = false;
        } else if (if first {
            is_alpha_exec(c)
        } else {
            is_alphanumeric_exec(c)
        }) {
            if run >= 8 {
                return false;
            }
            run = run + 1;
        } else {
            return false;
        }
        i = i + 1;
    }
    run >= 1
}

/// Decide whether `s` is a valid variable name.
pub fn check_variable_name(s: &str) -> (r: bool)
    ensures
        r == valid_variable_name(s@),
{
    let n = s.unicode_len();
    if n == 0 {
        return false;
    }
    let mut i: usize = 0;
    while i < n
        invariant
            0 <= i <= n,
            n == s@.len(),
            variable_chars_ok_from(s@, 0) <==> variable_chars_ok_from(s@, i as int),
        decreases n - i,
    {
        let c = s.get_char(i);
        if !(is_alphanumeric_exec(c) || c == '_') {
            return false;
        }
        i = i + 1;
    }
    true
}

/// Decide whether two string slices hold the same characters.
pub fn str_eq(a: &str, b: &str) -> (r: bool)
    ensures
        r == (a@ == b@),
{
    let n = a.unicode_len();
    if n != b.unicode_len() {
        assert(a@ != b@);
        return false;
    }
    let mut i: usize = 0;
    while i < n
        invariant
            0 <= i <= n,
            n == a@.len() && n == b@.len(),
            forall|j: int| 0 <= j < i ==> a@[j] == b@[j],
        decreases n - i,
    {
        if a.get_char(i) != b.get_char(i) {
            assert(a@ != b@);
            return false;
        }
        i = i + 1;
    }
    assert(a@ =~= b@);
    true
}

} // verus!
