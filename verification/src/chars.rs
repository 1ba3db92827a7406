//! Byte classification: the alphabets the grammar is built from.

use vstd::prelude::*;

verus! {

/// A carriage return or a line feed.
pub open spec fn is_crlf_byte(c: u8) -> bool {
    c == 13 || c == 10
}

/// Reports whether `c` is a carriage return or a line feed.
pub fn crlf(c: u8) -> (r: bool)
    ensures
        r == is_crlf_byte(c),
{
    c == 13 || c == 10
}

/// A mailbox-name list wildcard: `%` or `*`.
pub open spec fn is_list_wildcard(c: u8) -> bool {
    c == 37 || c == 42
}

/// Reports whether `c` is a list wildcard (`%` or `*`).
pub fn list_wildcards(c: u8) -> (r: bool)
    ensures
        r == is_list_wildcard(c),
{
    c == 37 || c == 42
}

/// A byte with special meaning inside quoted strings: `"` or `\`.
pub open spec fn is_quoted_special(c: u8) -> bool {
    c == 34 || c == 92
}

/// Reports whether `c` is a quoting character (`"` or `\`).
pub fn quoted_specials(c: u8) -> (r: bool)
    ensures
        r == is_quoted_special(c),
{
    c == 34 || c == 92
}

/// The byte that closes a bracketed response code: `]`.
pub open spec fn is_resp_special(c: u8) -> bool {
    c == 93
}

/// Reports whether `c` is the response-code closer `]`.
pub fn resp_specials(c: u8) -> (r: bool)
    ensures
        r == is_resp_special(c),
{
    c == 93
}

/// A byte that cannot appear in an atom: controls, space, `(`, `)`, `{`,
/// the list wildcards, the quoting characters, and `]`.
pub open spec fn is_atom_special(c: u8) -> bool {
    c == 40 || c == 41 || c == 123 || c == 32 || c < 32 || is_list_wildcard(c)
        || is_quoted_special(c) || is_resp_special(c)
}

/// Reports whether `c` may not appear in an atom.
pub fn atom_specials(c: u8) -> (r: bool)
    ensures
        r == is_atom_special(c),
{
    c == 40 || c == 41 || c == 123 || c == 32 || c < 32 || list_wildcards(c)
        || quoted_specials(c) || resp_specials(c)
}

/// A byte that may appear in an atom.
pub open spec fn is_atom_char(c: u8) -> bool {
    !is_atom_special(c)
}

/// Reports whether `c` may appear in an atom.
pub fn atom_char(c: u8) -> (r: bool)
    ensures
        r == is_atom_char(c),
{
    !atom_specials(c)
}

/// A byte that may appear in an astring: an atom byte or `]`.
pub open spec fn is_astring_char(c: u8) -> bool {
    is_atom_char(c) || is_resp_special(c)
}

/// Reports whether `c` may appear in an astring.
pub fn astring_char(c: u8) -> (r: bool)
    ensures
        r == is_astring_char(c),
{
    atom_char(c) || resp_specials(c)
}

/// A byte that may appear in a request tag: an astring byte other than `+`.
pub open spec fn is_tag_char(c: u8) -> bool {
    c != 43 && is_astring_char(c)
}

/// Reports whether `c` may appear in a request tag.
pub fn tag_char(c: u8) -> (r: bool)
    ensures
        r == is_tag_char(c),
{
    c != 43 && astring_char(c)
}

/// An ASCII decimal digit.
pub open spec fn is_digit_byte(c: u8) -> bool {
    48 <= c && c <= 57
}

/// Reports whether `c` is an ASCII decimal digit.
pub fn digit_byte(c: u8) -> (r: bool)
    ensures
        r == is_digit_byte(c),
{
    48 <= c && c <= 57
}

/// The upper-case image of an ASCII letter; any other byte is unchanged.
/// Keyword comparison in the grammar is case-insensitive only for the
/// status words, which are matched through this map.
pub open spec fn spec_upper(c: u8) -> u8 {
    if 97 <= c && c <= 122 {
        (c - 32) as u8
    } else {
        c
    }
}

/// Maps an ASCII lower-case letter to upper case, leaving other bytes alone.
pub fn upper(c: u8) -> (r: u8)
    ensures
        r == spec_upper(c),
{
    if 97 <= c && c <= 122 {
        c - 32
    } else {
        c
    }
}

} // verus!
