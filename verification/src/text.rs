//! Character classification, case mapping and decimal formatting.
//!
//! The classification and case-mapping predicates are fixed exactly on the
//! ASCII range; outside that range they fall back to named, uninterpreted
//! functions, and the thin trusted wrappers below tie those names to the
//! Unicode-aware functions of std.

use vstd::prelude::*;

verus! {

/// Whether a character above the ASCII range has the Unicode Alphabetic
/// property; named only, never computed in specifications.
pub uninterp spec fn alpha_outside_ascii(c: char) -> bool;

/// Whether a character above the ASCII range has the Unicode Uppercase
/// property.
pub uninterp spec fn upper_outside_ascii(c: char) -> bool;

/// Whether a character above the ASCII range has the Unicode Lowercase
/// property.
pub uninterp spec fn lower_outside_ascii(c: char) -> bool;

/// Whether a character above the ASCII range is Unicode numeric.
pub uninterp spec fn numeric_outside_ascii(c: char) -> bool;

/// Whether a character above the ASCII range is Unicode whitespace.
pub uninterp spec fn ws_outside_ascii(c: char) -> bool;

/// First character of the Unicode lowercase mapping of a character above
/// the ASCII range.
pub uninterp spec fn lower1_outside_ascii(c: char) -> char;

/// Unicode uppercase mapping (possibly several characters) of a character
/// above the ASCII range that is not itself uppercase.
pub uninterp spec fn upper_outside_ascii_map(c: char) -> Seq<char>;

pub open spec fn is_ascii_char(c: char) -> bool {
    (c as u32) < 128
}

/// Whether every character of the sequence is ASCII.
pub open spec fn ascii_seq(s: Seq<char>) -> bool {
    forall|i: int| 0 <= i < s.len() ==> is_ascii_char(#[trigger] s[i])
}

pub open spec fn is_digit_char(c: char) -> bool {
    '0' <= c && c <= '9'
}

pub open spec fn is_alpha_char(c: char) -> bool {
    if is_ascii_char(c) {
        ('a' <= c && c <= 'z') || ('A' <= c && c <= 'Z')
    } else {
        alpha_outside_ascii(c)
    }
}

pub open spec fn is_alnum_char(c: char) -> bool {
    is_alpha_char(c) || is_numeric_char(c)
}

pub open spec fn is_upper_char(c: char) -> bool {
    if is_ascii_char(c) {
        'A' <= c && c <= 'Z'
    } else {
        upper_outside_ascii(c)
    }
}

pub open spec fn is_lower_char(c: char) -> bool {
    if is_ascii_char(c) {
        'a' <= c && c <= 'z'
    } else {
        lower_outside_ascii(c)
    }
}

pub open spec fn is_numeric_char(c: char) -> bool {
    if is_ascii_char(c) {
        is_digit_char(c)
    } else {
        numeric_outside_ascii(c)
    }
}

pub open spec fn is_ws_char(c: char) -> bool {
    if is_ascii_char(c) {
        c == ' ' || c == '\t' || c == '\n' || c == '\r' || (c as u32) == 11 || (c as u32) == 12
    } else {
        ws_outside_ascii(c)
    }
}

/// First character of the lowercase mapping. On ASCII this maps `A`..`Z`
/// down by 32 and leaves everything else alone; outside ASCII the value is
/// only named.
pub open spec fn lower1_char(c: char) -> char {
    if is_ascii_char(c) {
        if 'A' <= c && c <= 'Z' {
            (((c as u32) + 32) as char)
        } else {
            c
        }
    } else {
        lower1_outside_ascii(c)
    }
}

/// Uppercase mapping of one character. On ASCII this maps `a`..`z` up by 32
/// and leaves everything else alone; a non-ASCII character that is already
/// uppercase maps to itself, and any other character's mapping is only
/// named.
pub open spec fn upper_chars(c: char) -> Seq<char> {
    if is_ascii_char(c) {
        if 'a' <= c && c <= 'z' {
            seq![(((c as u32) - 32) as char)]
        } else {
            seq![c]
        }
    } else if upper_outside_ascii(c) {
        seq![c]
    } else {
        upper_outside_ascii_map(c)
    }
}

/// Uppercase mapping of a whole character sequence.
pub open spec fn upper_seq(s: Seq<char>) -> Seq<char>
    decreases s.len(),
{
    if s.len() == 0 {
        Seq::empty()
    } else {
        upper_chars(s[0]) + upper_seq(s.drop_first())
    }
}

/// Relies on char::is_alphabetic: ASCII letters are exactly `a`..`z` and
/// `A`..`Z`; beyond ASCII the result is only named.
#[verifier::external_body]
pub(crate) fn char_is_alphabetic(c: char) -> (r: bool)
    ensures
        r == is_alpha_char(c),
        !is_ascii_char(c) ==> r == alpha_outside_ascii(c),
{
    c.is_alphabetic()
}

/// Relies on char::is_alphanumeric, which std documents as the disjunction
/// of char::is_alphabetic and char::is_numeric.
#[verifier::external_body]
pub(crate) fn char_is_alphanumeric(c: char) -> (r: bool)
    ensures
        r == is_alnum_char(c),
{
    c.is_alphanumeric()
}

/// Relies on char::is_uppercase: on ASCII exactly `A`..`Z`; beyond ASCII the
/// result is only named.
#[verifier::external_body]
pub(crate) fn char_is_uppercase(c: char) -> (r: bool)
    ensures
        r == is_upper_char(c),
        !is_ascii_char(c) ==> r == upper_outside_ascii(c),
{
    c.is_uppercase()
}

/// Relies on char::is_lowercase: on ASCII exactly `a`..`z`; beyond ASCII the
/// result is only named.
#[verifier::external_body]
pub(crate) fn char_is_lowercase(c: char) -> (r: bool)
    ensures
        r == is_lower_char(c),
        !is_ascii_char(c) ==> r == lower_outside_ascii(c),
{
    c.is_lowercase()
}

/// Relies on char::is_numeric: on ASCII exactly `0`..`9`; beyond ASCII the
/// result is only named.
#[verifier::external_body]
pub(crate) fn char_is_numeric(c: char) -> (r: bool)
    ensures
        r == is_numeric_char(c),
        !is_ascii_char(c) ==> r == numeric_outside_ascii(c),
{
    c.is_numeric()
}

/// Relies on char::is_whitespace: on ASCII exactly space, tab, line feed,
/// vertical tab, form feed and carriage return; beyond ASCII the result is
/// only named.
#[verifier::external_body]
pub(crate) fn char_is_whitespace(c: char) -> (r: bool)
    ensures
        r == is_ws_char(c),
        !is_ascii_char(c) ==> r == ws_outside_ascii(c),
{
    c.is_whitespace()
}

/// Relies on char::to_lowercase, whose iterator always yields at least one
/// character (its `next` here only takes that first one); on ASCII the
/// mapping is exactly the `A`..`Z` shift, beyond ASCII the first character
/// is only named.
#[verifier::external_body]
pub(crate) fn char_lower_first(c: char) -> (r: char)
    ensures
        r == lower1_char(c),
        !is_ascii_char(c) ==> r == lower1_outside_ascii(c),
{
    match c.to_lowercase().next() {
        Some(l) => l,
        None => c,
    }
}

/// Relies on str::to_uppercase: the concatenation, character by character,
/// of char::to_uppercase, which on ASCII is exactly the `a`..`z` shift and
/// maps an uppercase character to itself.
#[verifier::external_body]
pub(crate) fn str_to_uppercase(s: &str) -> (r: String)
    ensures
        r@ == upper_seq(s@),
        s@.len() == 1 && !is_ascii_char(s@[0]) && !upper_outside_ascii(s@[0])
            ==> r@ == upper_outside_ascii_map(s@[0]),
{
    s.to_uppercase()
}

/// Relies on String::push: appends exactly one character.
#[verifier::external_body]
pub(crate) fn push_char(s: &mut String, c: char)
    ensures
        final(s)@ == old(s)@.push(c),
{
    s.push(c);
}

/// Character-wise string equality.
pub fn str_eq(a: &str, b: &str) -> (r: bool)
    ensures
        r == (a@ == b@),
{
    let alen = a.unicode_len();
    let blen = b.unicode_len();
    if alen != blen {
        assert(a@ != b@) by {
            assert(a@.len() != b@.len());
        }
        return false;
    }
    let mut i: usize = 0;
    while i < alen
        invariant
            i <= alen,
            alen == a@.len(),
            alen == b@.len(),
            forall|j: int| 0 <= j < i ==> a@[j] == b@[j],
        decreases alen - i,
    {
        if a.get_char(i) != b.get_char(i) {
            return false;
        }
        i += 1;
    }
    proof {
        assert(a@ =~= b@);
    }
    true
}

/// The decimal digits of a nonnegative number, most significant first.
pub open spec fn dec_digits(n: nat) -> Seq<char>
    decreases n,
{
    if n < 10 {
        seq![digit_char(n)]
    } else {
        dec_digits(n / 10).push(digit_char(n % 10))
    }
}

/// The decimal rendering of an integer, with a leading minus sign when
/// negative.
pub open spec fn dec_int(n: int) -> Seq<char> {
    if n < 0 {
        seq!['-'] + dec_digits((-n) as nat)
    } else {
        dec_digits(n as nat)
    }
}

pub open spec fn digit_char(d: nat) -> char {
    if d == 0 {
        '0'
    } else if d == 1 {
        '1'
    } else if d == 2 {
        '2'
    } else if d == 3 {
        '3'
    } else if d == 4 {
        '4'
    } else if d == 5 {
        '5'
    } else if d == 6 {
        '6'
    } else if d == 7 {
        '7'
    } else if d == 8 {
        '8'
    } else {
        '9'
    }
}

fn digit_to_char(d: u64) -> (c: char)
    requires
        d < 10,
    ensures
        c == digit_char(d as nat),
{
    match d {
        0 => '0',
        1 => '1',
        2 => '2',
        3 => '3',
        4 => '4',
        5 => '5',
        6 => '6',
        7 => '7',
        8 => '8',
        _ => '9',
    }
}

/// Appends the decimal digits of `v` to `s`.
pub fn push_dec_u64(s: &mut String, v: u64)
    ensures
        final(s)@ == old(s)@ + dec_digits(v as nat),
    decreases v,
{
    if v < 10 {
        push_char(s, digit_to_char(v));
        assert(final(s)@ =~= old(s)@ + dec_digits(v as nat));
    } else {
        push_dec_u64(s, v / 10);
        push_char(s, digit_to_char(v % 10));
        assert(final(s)@ =~= old(s)@ + dec_digits(v as nat));
    }
}

/// Appends the decimal rendering of `v` to `s`.
pub fn push_dec_i32(s: &mut String, v: i32)
    ensures
        final(s)@ == old(s)@ + dec_int(v as int),
{
    if v < 0 {
        push_char(s, '-');
        let m: u64 = (-(v as i64)) as u64;
        push_dec_u64(s, m);
        assert(final(s)@ =~= old(s)@ + dec_int(v as int));
    } else {
        push_dec_u64(s, v as u64);
    }
}

/// Appends the decimal digits of `v` to `s`.
pub fn push_dec_usize(s: &mut String, v: usize)
    ensures
        final(s)@ == old(s)@ + dec_digits(v as nat),
{
    push_dec_u64(s, v as u64);
}

} // verus!
