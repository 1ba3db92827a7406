//! Primitive and composite tokens: keyword matching, scanning, numbers,
//! quoted strings, literals, atoms, flags and nullable strings.
//!
//! Every rule is written twice: a `sp_` specification function gives the
//! mathematical meaning over a byte sequence and a position, and an
//! executable function is proved to return exactly that. A rule outcome is
//! a value with the position just past it, a request for more input, or a
//! definite mismatch; a rule that runs into the end of the buffer while it
//! could still be satisfied by further bytes asks for more input instead of
//! failing.

use vstd::prelude::*;

use crate::chars::is_atom_char;
use crate::chars::is_crlf_byte;
use crate::chars::is_digit_byte;
use crate::chars::is_tag_char;
use crate::chars::spec_upper;
use crate::chars::atom_char;
use crate::chars::crlf;
use crate::chars::digit_byte;
use crate::chars::tag_char;
use crate::chars::upper;
use crate::types::Parsed;
use crate::types::SpecRes;

verus! {

broadcast use crate::types::lemma_bytes_deep_view;

// ---------------------------------------------------------------- keywords

/// The first `n` bytes of `t` stand at position `i` of `s`.
pub open spec fn tag_match_upto(s: Seq<u8>, i: int, t: Seq<u8>, n: int) -> bool {
    forall|k: int| 0 <= k < n ==> s[i + k] == t[k]
}

/// Exact-byte keyword match: consumes the keyword when it is wholly present,
/// asks for more input when the buffer ends inside a matching prefix, and
/// fails on the first mismatching byte.
pub open spec fn sp_tag(s: Seq<u8>, i: int, t: Seq<u8>) -> SpecRes<()> {
    if i + t.len() <= s.len() {
        if tag_match_upto(s, i, t, t.len() as int) {
            SpecRes::Val((), i + t.len())
        } else {
            SpecRes::Fail
        }
    } else {
        if tag_match_upto(s, i, t, s.len() - i) {
            SpecRes::More(None)
        } else {
            SpecRes::Fail
        }
    }
}

/// Matches the keyword `t` byte for byte at position `i`.
pub fn expect_tag<const N: usize>(s: &[u8], i: usize, t: &[u8; N]) -> (r: Parsed<()>)
    requires
        i <= s@.len(),
    ensures
        r.deep_view() == sp_tag(s@, i as int, t@),
        r matches Parsed::Val(_, j) ==> j == i + t@.len() && i <= j <= s@.len(),
{
    let n = t.len();
    let slen = s.len();
    let avail = slen - i;
    let mut k: usize = 0;
    while k < n && k < avail
        invariant
            k <= n,
            k <= avail,
            slen == s@.len(),
            avail == slen - i,
            i <= slen,
            n == t@.len(),
            tag_match_upto(s@, i as int, t@, k as int),
        decreases n - k,
    {
        if s[i + k] != t[k] {
            proof {
                assert(s@[i + k] != t@[k as int]);
                assert(!tag_match_upto(s@, i as int, t@, t@.len() as int));
                assert(!tag_match_upto(s@, i as int, t@, s@.len() - i));
            }
            return Parsed::Fail;
        }
        k = k + 1;
    }
    if k == n {
        Parsed::Val((), i + n)
    } else {
        Parsed::More(None)
    }
}

/// The first `n` bytes of `t` stand at position `i` of `s`, up to ASCII case.
pub open spec fn nc_match_upto(s: Seq<u8>, i: int, t: Seq<u8>, n: int) -> bool {
    forall|k: int| 0 <= k < n ==> spec_upper(s[i + k]) == t[k]
}

/// Keyword match up to ASCII case; `t` is given in upper case.
pub open spec fn sp_tag_nc(s: Seq<u8>, i: int, t: Seq<u8>) -> SpecRes<()> {
    if i + t.len() <= s.len() {
        if nc_match_upto(s, i, t, t.len() as int) {
            SpecRes::Val((), i + t.len())
        } else {
            SpecRes::Fail
        }
    } else {
        if nc_match_upto(s, i, t, s.len() - i) {
            SpecRes::More(None)
        } else {
            SpecRes::Fail
        }
    }
}

/// Matches the upper-case keyword `t` at position `i`, ignoring ASCII case.
pub fn expect_tag_nc<const N: usize>(s: &[u8], i: usize, t: &[u8; N]) -> (r: Parsed<()>)
    requires
        i <= s@.len(),
    ensures
        r.deep_view() == sp_tag_nc(s@, i as int, t@),
        r matches Parsed::Val(_, j) ==> j == i + t@.len() && i <= j <= s@.len(),
{
    let n = t.len();
    let slen = s.len();
    let avail = slen - i;
    let mut k: usize = 0;
    while k < n && k < avail
        invariant
            k <= n,
            k <= avail,
            slen == s@.len(),
            avail == slen - i,
            i <= slen,
            n == t@.len(),
            nc_match_upto(s@, i as int, t@, k as int),
        decreases n - k,
    {
        if upper(s[i + k]) != t[k] {
            proof {
                assert(spec_upper(s@[i + k]) != t@[k as int]);
                assert(!nc_match_upto(s@, i as int, t@, t@.len() as int));
                assert(!nc_match_upto(s@, i as int, t@, s@.len() - i));
            }
            return Parsed::Fail;
        }
        k = k + 1;
    }
    if k == n {
        Parsed::Val((), i + n)
    } else {
        Parsed::More(None)
    }
}

// ------------------------------------------------------------------- scans

/// End of the maximal run of atom bytes starting at `i`.
pub open spec fn sp_scan_atom(s: Seq<u8>, i: int) -> int
    decreases s.len() - i,
{
    if i < s.len() && is_atom_char(s[i]) {
        sp_scan_atom(s, i + 1)
    } else {
        i
    }
}

/// Scans past the atom bytes starting at `i`.
pub fn scan_atom(s: &[u8], i: usize) -> (j: usize)
    requires
        i <= s@.len(),
    ensures
        j == sp_scan_atom(s@, i as int),
        i <= j <= s@.len(),
        forall|k: int| i <= k < j ==> is_atom_char(s@[k]),
        j < s@.len() ==> !is_atom_char(s@[j as int]),
    decreases s@.len() - i,
{
    if i < s.len() && atom_char(s[i]) {
        scan_atom(s, i + 1)
    } else {
        i
    }
}

/// End of the maximal run of request-tag bytes starting at `i`.
pub open spec fn sp_scan_tag(s: Seq<u8>, i: int) -> int
    decreases s.len() - i,
{
    if i < s.len() && is_tag_char(s[i]) {
        sp_scan_tag(s, i + 1)
    } else {
        i
    }
}

/// Scans past the request-tag bytes starting at `i`.
pub fn scan_tag(s: &[u8], i: usize) -> (j: usize)
    requires
        i <= s@.len(),
    ensures
        j == sp_scan_tag(s@, i as int),
        i <= j <= s@.len(),
    decreases s@.len() - i,
{
    if i < s.len() && tag_char(s[i]) {
        scan_tag(s, i + 1)
    } else {
        i
    }
}

/// End of the maximal run of bytes before a CR or LF starting at `i`.
pub open spec fn sp_scan_text(s: Seq<u8>, i: int) -> int
    decreases s.len() - i,
{
    if i < s.len() && !is_crlf_byte(s[i]) {
        sp_scan_text(s, i + 1)
    } else {
        i
    }
}

/// Scans past the free-text bytes starting at `i`.
pub fn scan_text(s: &[u8], i: usize) -> (j: usize)
    requires
        i <= s@.len(),
    ensures
        j == sp_scan_text(s@, i as int),
        i <= j <= s@.len(),
    decreases s@.len() - i,
{
    if i < s.len() && !crlf(s[i]) {
        scan_text(s, i + 1)
    } else {
        i
    }
}

/// End of the maximal run of decimal digits starting at `i`.
pub open spec fn sp_scan_digits(s: Seq<u8>, i: int) -> int
    decreases s.len() - i,
{
    if i < s.len() && is_digit_byte(s[i]) {
        sp_scan_digits(s, i + 1)
    } else {
        i
    }
}

/// Scans past the digits starting at `i`.
pub fn scan_digits(s: &[u8], i: usize) -> (j: usize)
    requires
        i <= s@.len(),
    ensures
        j == sp_scan_digits(s@, i as int),
        i <= j <= s@.len(),
        forall|k: int| i <= k < j ==> is_digit_byte(s@[k]),
    decreases s@.len() - i,
{
    if i < s.len() && digit_byte(s[i]) {
        scan_digits(s, i + 1)
    } else {
        i
    }
}

// ----------------------------------------------------------------- numbers

/// Value of the decimal digits of `s` between `i` and `e`.
pub open spec fn sp_digits_val(s: Seq<u8>, i: int, e: int) -> nat
    decreases e - i,
{
    if i >= e {
        0
    } else {
        sp_digits_val(s, i, e - 1) * 10 + (s[e - 1] - 48) as nat
    }
}

/// A longer digit run never has a smaller value.
pub proof fn lemma_digits_val_mono(s: Seq<u8>, i: int, k: int, e: int)
    requires
        i <= k <= e,
    ensures
        sp_digits_val(s, i, e) >= sp_digits_val(s, i, k),
    decreases e - k,
{
    if k < e {
        lemma_digits_val_mono(s, i, k, e - 1);
    }
}

/// One-or-more decimal digits read as an unsigned number of at most `max`:
/// more input is needed while the run of digits touches the end of the
/// buffer, since further digits could still follow; an empty run, and a
/// value above `max`, can never match.
pub open spec fn sp_num(s: Seq<u8>, i: int, max: nat) -> SpecRes<nat> {
    let e = sp_scan_digits(s, i);
    if e >= s.len() {
        SpecRes::More(None)
    } else if e == i {
        SpecRes::Fail
    } else if sp_digits_val(s, i, e) > max {
        SpecRes::Fail
    } else {
        SpecRes::Val(sp_digits_val(s, i, e), e)
    }
}

/// A number that must fit in 32 bits.
pub open spec fn sp_number(s: Seq<u8>, i: int) -> SpecRes<u32> {
    match sp_num(s, i, u32::MAX as nat) {
        SpecRes::Val(n, j) => SpecRes::Val(n as u32, j),
        SpecRes::More(h) => SpecRes::More(h),
        SpecRes::Fail => SpecRes::Fail,
    }
}

/// A number that must fit in 64 bits.
pub open spec fn sp_number_64(s: Seq<u8>, i: int) -> SpecRes<u64> {
    match sp_num(s, i, u64::MAX as nat) {
        SpecRes::Val(n, j) => SpecRes::Val(n as u64, j),
        SpecRes::More(h) => SpecRes::More(h),
        SpecRes::Fail => SpecRes::Fail,
    }
}

/// Decodes a 32-bit decimal number at `i`.
pub fn number(s: &[u8], i: usize) -> (r: Parsed<u32>)
    requires
        i <= s@.len(),
    ensures
        r.deep_view() == sp_number(s@, i as int),
        r matches Parsed::Val(_, j) ==> i < j <= s@.len(),
{
    let e = scan_digits(s, i);
    if e == s.len() {
        return Parsed::More(None);
    }
    if e == i {
        return Parsed::Fail;
    }
    let mut acc: u64 = 0;
    let mut k: usize = i;
    while k < e
        invariant
            i <= k <= e <= s@.len(),
            acc == sp_digits_val(s@, i as int, k as int),
            acc <= u32::MAX,
            e == sp_scan_digits(s@, i as int),
            e < s@.len(),
            e != i,
            forall|m: int| i <= m < e ==> is_digit_byte(s@[m]),
        decreases e - k,
    {
        let d = s[k] - 48;
        acc = acc * 10 + d as u64;
        k = k + 1;
        if acc > 0xFFFF_FFFF {
            proof {
                lemma_digits_val_mono(s@, i as int, k as int, e as int);
            }
            return Parsed::Fail;
        }
    }
    Parsed::Val(acc as u32, e)
}

/// Decodes a 64-bit decimal number at `i`.
pub fn number_64(s: &[u8], i: usize) -> (r: Parsed<u64>)
    requires
        i <= s@.len(),
    ensures
        r.deep_view() == sp_number_64(s@, i as int),
        r matches Parsed::Val(_, j) ==> i < j <= s@.len(),
{
    let e = scan_digits(s, i);
    if e == s.len() {
        return Parsed::More(None);
    }
    if e == i {
        return Parsed::Fail;
    }
    let mut acc: u128 = 0;
    let mut k: usize = i;
    while k < e
        invariant
            i <= k <= e <= s@.len(),
            acc == sp_digits_val(s@, i as int, k as int),
            acc <= u64::MAX,
            e == sp_scan_digits(s@, i as int),
            e < s@.len(),
            e != i,
            forall|m: int| i <= m < e ==> is_digit_byte(s@[m]),
        decreases e - k,
    {
        let d = s[k] - 48;
        acc = acc * 10 + d as u128;
        k = k + 1;
        if acc > 0xFFFF_FFFF_FFFF_FFFF {
            proof {
                lemma_digits_val_mono(s@, i as int, k as int, e as int);
            }
            return Parsed::Fail;
        }
    }
    Parsed::Val(acc as u64, e)
}

/// Copies the bytes of `s` between `a` and `b` into a fresh vector.
pub fn copy_range(s: &[u8], a: usize, b: usize) -> (v: Vec<u8>)
    requires
        a <= b <= s@.len(),
    ensures
        v@ == s@.subrange(a as int, b as int),
{
    let mut v: Vec<u8> = Vec::new();
    let mut k: usize = a;
    while k < b
        invariant
            a <= k <= b <= s@.len(),
            v@ == s@.subrange(a as int, k as int),
        decreases b - k,
    {
        v.push(s[k]);
        proof {
            assert(s@.subrange(a as int, k as int).push(s@[k as int]) =~= s@.subrange(
                a as int,
                k as int + 1,
            ));
        }
        k = k + 1;
    }
    v
}

// ----------------------------------------------------------------- strings

/// Body of a quoted string, starting just past the opening quote: the bytes
/// up to the closing unescaped `"`. A backslash makes the following byte
/// literal; the decoded content drops the backslash and keeps that byte.
/// More input is needed if the buffer ends before the closing quote.
pub open spec fn sp_quoted_body(s: Seq<u8>, i: int) -> SpecRes<Seq<u8>>
    decreases s.len() - i,
{
    if i >= s.len() {
        SpecRes::More(None)
    } else if s[i] == 34 {
        SpecRes::Val(Seq::empty(), i + 1)
    } else if s[i] == 92 {
        if i + 1 >= s.len() {
            SpecRes::More(None)
        } else {
            match sp_quoted_body(s, i + 2) {
                SpecRes::Val(c, j) => SpecRes::Val(seq![s[i + 1]] + c, j),
                SpecRes::More(h) => SpecRes::More(h),
                SpecRes::Fail => SpecRes::Fail,
            }
        }
    } else {
        match sp_quoted_body(s, i + 1) {
            SpecRes::Val(c, j) => SpecRes::Val(seq![s[i]] + c, j),
            SpecRes::More(h) => SpecRes::More(h),
            SpecRes::Fail => SpecRes::Fail,
        }
    }
}

/// A quoted string: `"`, escaped content, `"`.
pub open spec fn sp_quoted(s: Seq<u8>, i: int) -> SpecRes<Seq<u8>> {
    match crate::kw::sp_kw_dquote(s, i) {
        SpecRes::Val(_, j) => sp_quoted_body(s, j),
        SpecRes::More(h) => SpecRes::More(h),
        SpecRes::Fail => SpecRes::Fail,
    }
}

/// Decodes the body of a quoted string starting just past the opening quote.
pub fn quoted_body(s: &[u8], i: usize) -> (r: Parsed<Vec<u8>>)
    requires
        i <= s@.len(),
    ensures
        r.deep_view() == sp_quoted_body(s@, i as int),
        r matches Parsed::Val(_, j) ==> i < j <= s@.len(),
    decreases s@.len() - i,
{
    if i == s.len() {
        Parsed::More(None)
    } else if s[i] == 34 {
        Parsed::Val(Vec::new(), i + 1)
    } else if s[i] == 92 {
        if i + 1 == s.len() {
            Parsed::More(None)
        } else {
            match quoted_body(s, i + 2) {
                Parsed::Val(c, j) => {
                    let ghost tail = c@;
                    let mut c = c;
                    c.insert(0, s[i + 1]);
                    proof {
                        assert(c@ =~= seq![s@[i + 1]] + tail);
                    }
                    Parsed::Val(c, j)
                },
                Parsed::More(h) => Parsed::More(h),
                Parsed::Fail => Parsed::Fail,
            }
        }
    } else {
        match quoted_body(s, i + 1) {
            Parsed::Val(c, j) => {
                let ghost tail = c@;
                let mut c = c;
                c.insert(0, s[i]);
                proof {
                    assert(c@ =~= seq![s@[i as int]] + tail);
                }
                Parsed::Val(c, j)
            },
            Parsed::More(h) => Parsed::More(h),
            Parsed::Fail => Parsed::Fail,
        }
    }
}

/// Decodes a quoted string at `i`.
pub fn quoted(s: &[u8], i: usize) -> (r: Parsed<Vec<u8>>)
    requires
        i <= s@.len(),
    ensures
        r.deep_view() == sp_quoted(s@, i as int),
        r matches Parsed::Val(_, j) ==> i < j <= s@.len(),
{
    match crate::kw::tag_dquote(s, i) {
        Parsed::Val(_, j) => quoted_body(s, j),
        Parsed::More(h) => Parsed::More(h),
        Parsed::Fail => Parsed::Fail,
    }
}

/// A literal: `{`, a decimal length, `}`, CRLF, then exactly that many raw
/// bytes, which may include any byte value. When the header is complete but
/// fewer content bytes are present, the outcome asks for more input and
/// names the least number of bytes still missing.
pub open spec fn sp_literal(s: Seq<u8>, i: int) -> SpecRes<Seq<u8>> {
    match crate::kw::sp_kw_lbrace(s, i) {
        SpecRes::Val(_, j) => match sp_number(s, j) {
            SpecRes::Val(n, k) => match crate::kw::sp_kw_rbrace_crlf(s, k) {
                SpecRes::Val(_, m) => if m + n <= s.len() {
                    SpecRes::Val(s.subrange(m, m + n), m + n)
                } else {
                    SpecRes::More(Some(m + n - s.len()))
                },
                SpecRes::More(h) => SpecRes::More(h),
                SpecRes::Fail => SpecRes::Fail,
            },
            SpecRes::More(h) => SpecRes::More(h),
            SpecRes::Fail => SpecRes::Fail,
        },
        SpecRes::More(h) => SpecRes::More(h),
        SpecRes::Fail => SpecRes::Fail,
    }
}

/// Decodes a length-prefixed literal at `i`.
pub fn literal(s: &[u8], i: usize) -> (r: Parsed<Vec<u8>>)
    requires
        i <= s@.len(),
    ensures
        r.deep_view() == sp_literal(s@, i as int),
        r matches Parsed::Val(_, j) ==> i < j <= s@.len(),
{
    match crate::kw::tag_lbrace(s, i) {
        Parsed::Val(_, j) => match number(s, j) {
            Parsed::Val(n, k) => match crate::kw::tag_rbrace_crlf(s, k) {
                Parsed::Val(_, m) => {
                    let have = s.len() - m;
                    if n as usize <= have {
                        let v = copy_range(s, m, m + n as usize);
                        Parsed::Val(v, m + n as usize)
                    } else {
                        Parsed::More(Some(n as usize - have))
                    }
                },
                Parsed::More(h) => Parsed::More(h),
                Parsed::Fail => Parsed::Fail,
            },
            Parsed::More(h) => Parsed::More(h),
            Parsed::Fail => Parsed::Fail,
        },
        Parsed::More(h) => Parsed::More(h),
        Parsed::Fail => Parsed::Fail,
    }
}

/// A string token: a quoted string or a literal, told apart by their first
/// byte (`"` against `{`).
pub open spec fn sp_string(s: Seq<u8>, i: int) -> SpecRes<Seq<u8>> {
    match sp_quoted(s, i) {
        SpecRes::Val(c, j) => SpecRes::Val(c, j),
        SpecRes::More(h) => SpecRes::More(h),
        SpecRes::Fail => sp_literal(s, i),
    }
}

/// Decodes a string token (quoted string or literal) at `i`.
pub fn string(s: &[u8], i: usize) -> (r: Parsed<Vec<u8>>)
    requires
        i <= s@.len(),
    ensures
        r.deep_view() == sp_string(s@, i as int),
        r matches Parsed::Val(_, j) ==> i < j <= s@.len(),
{
    match quoted(s, i) {
        Parsed::Val(c, j) => Parsed::Val(c, j),
        Parsed::More(h) => Parsed::More(h),
        Parsed::Fail => literal(s, i),
    }
}

// ------------------------------------------------------- atoms, text, flags

/// An atom: a maximal non-empty run of atom bytes. A run that touches the
/// end of the buffer could still grow, so it asks for more input.
pub open spec fn sp_atom(s: Seq<u8>, i: int) -> SpecRes<Seq<u8>> {
    let e = sp_scan_atom(s, i);
    if e >= s.len() {
        SpecRes::More(None)
    } else if e == i {
        SpecRes::Fail
    } else {
        SpecRes::Val(s.subrange(i, e), e)
    }
}

/// Decodes an atom at `i`.
pub fn atom(s: &[u8], i: usize) -> (r: Parsed<Vec<u8>>)
    requires
        i <= s@.len(),
    ensures
        r.deep_view() == sp_atom(s@, i as int),
        r matches Parsed::Val(_, j) ==> i < j <= s@.len(),
{
    let e = scan_atom(s, i);
    if e == s.len() {
        Parsed::More(None)
    } else if e == i {
        Parsed::Fail
    } else {
        Parsed::Val(copy_range(s, i, e), e)
    }
}

/// Free text: all bytes before the next CR or LF, possibly none. Text that
/// touches the end of the buffer could still grow, so it asks for more.
pub open spec fn sp_text(s: Seq<u8>, i: int) -> SpecRes<Seq<u8>> {
    let e = sp_scan_text(s, i);
    if e >= s.len() {
        SpecRes::More(None)
    } else {
        SpecRes::Val(s.subrange(i, e), e)
    }
}

/// Decodes the free text at `i`.
pub fn text(s: &[u8], i: usize) -> (r: Parsed<Vec<u8>>)
    requires
        i <= s@.len(),
    ensures
        r.deep_view() == sp_text(s@, i as int),
        r matches Parsed::Val(_, j) ==> i <= j <= s@.len(),
{
    let e = scan_text(s, i);
    if e == s.len() {
        Parsed::More(None)
    } else {
        Parsed::Val(copy_range(s, i, e), e)
    }
}

/// A system or extension flag: `\` followed by a maximal, possibly empty,
/// run of atom bytes; the decoded flag keeps the backslash.
pub open spec fn sp_flag_extension(s: Seq<u8>, i: int) -> SpecRes<Seq<u8>> {
    if i >= s.len() {
        SpecRes::More(None)
    } else if s[i] != 92 {
        SpecRes::Fail
    } else {
        let e = sp_scan_atom(s, i + 1);
        if e >= s.len() {
            SpecRes::More(None)
        } else {
            SpecRes::Val(s.subrange(i, e), e)
        }
    }
}

/// Decodes a backslash-prefixed flag at `i`.
pub fn flag_extension(s: &[u8], i: usize) -> (r: Parsed<Vec<u8>>)
    requires
        i <= s@.len(),
    ensures
        r.deep_view() == sp_flag_extension(s@, i as int),
        r matches Parsed::Val(_, j) ==> i < j <= s@.len(),
{
    if i == s.len() {
        Parsed::More(None)
    } else if s[i] != 92 {
        Parsed::Fail
    } else {
        let e = scan_atom(s, i + 1);
        if e == s.len() {
            Parsed::More(None)
        } else {
            Parsed::Val(copy_range(s, i, e), e)
        }
    }
}

/// A flag: a backslash-prefixed system or extension flag, else a bare atom.
pub open spec fn sp_flag(s: Seq<u8>, i: int) -> SpecRes<Seq<u8>> {
    match sp_flag_extension(s, i) {
        SpecRes::Val(f, j) => SpecRes::Val(f, j),
        SpecRes::More(h) => SpecRes::More(h),
        SpecRes::Fail => sp_atom(s, i),
    }
}

/// Decodes a flag at `i`.
pub fn flag(s: &[u8], i: usize) -> (r: Parsed<Vec<u8>>)
    requires
        i <= s@.len(),
    ensures
        r.deep_view() == sp_flag(s@, i as int),
        r matches Parsed::Val(_, j) ==> i < j <= s@.len(),
{
    match flag_extension(s, i) {
        Parsed::Val(f, j) => Parsed::Val(f, j),
        Parsed::More(h) => Parsed::More(h),
        Parsed::Fail => atom(s, i),
    }
}

/// A flag inside a PERMANENTFLAGS list: the special marker `\*`, which says
/// the server permits new keyword flags, or an ordinary flag.
pub open spec fn sp_flag_perm(s: Seq<u8>, i: int) -> SpecRes<Seq<u8>> {
    match crate::kw::sp_kw_bslash_star(s, i) {
        SpecRes::Val(_, j) => SpecRes::Val(crate::kw::kw_bslash_star(), j),
        SpecRes::More(h) => SpecRes::More(h),
        SpecRes::Fail => sp_flag(s, i),
    }
}

/// Decodes a PERMANENTFLAGS list element at `i`.
pub fn flag_perm(s: &[u8], i: usize) -> (r: Parsed<Vec<u8>>)
    requires
        i <= s@.len(),
    ensures
        r.deep_view() == sp_flag_perm(s@, i as int),
        r matches Parsed::Val(_, j) ==> i < j <= s@.len(),
{
    match crate::kw::tag_bslash_star(s, i) {
        Parsed::Val(_, j) => {
            let mut v: Vec<u8> = Vec::new();
            v.push(92);
            v.push(42);
            proof {
                assert(v@ =~= crate::kw::kw_bslash_star());
            }
            Parsed::Val(v, j)
        },
        Parsed::More(h) => Parsed::More(h),
        Parsed::Fail => flag(s, i),
    }
}

// ---------------------------------------------------------------- nstrings

/// A nullable string: the exact word `NIL` yields absence; otherwise a
/// string token yields presence, even when its content spells `NIL`.
pub open spec fn sp_nstring(s: Seq<u8>, i: int) -> SpecRes<Option<Seq<u8>>> {
    match crate::kw::sp_kw_nil(s, i) {
        SpecRes::Val(_, j) => SpecRes::Val(None, j),
        SpecRes::More(h) => SpecRes::More(h),
        SpecRes::Fail => match sp_string(s, i) {
            SpecRes::Val(c, j) => SpecRes::Val(Some(c), j),
            SpecRes::More(h) => SpecRes::More(h),
            SpecRes::Fail => SpecRes::Fail,
        },
    }
}

/// Decodes a nullable string at `i`.
pub fn nstring(s: &[u8], i: usize) -> (r: Parsed<Option<Vec<u8>>>)
    requires
        i <= s@.len(),
    ensures
        r.deep_view() == sp_nstring(s@, i as int),
        r matches Parsed::Val(_, j) ==> i < j <= s@.len(),
{
    match crate::kw::tag_nil(s, i) {
        Parsed::Val(_, j) => Parsed::Val(None, j),
        Parsed::More(h) => Parsed::More(h),
        Parsed::Fail => match string(s, i) {
            Parsed::Val(c, j) => Parsed::Val(Some(c), j),
            Parsed::More(h) => Parsed::More(h),
            Parsed::Fail => Parsed::Fail,
        },
    }
}

} // verus!
