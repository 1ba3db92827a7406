//! The fixed keywords of the grammar, as byte sequences, and one matcher
//! for each. The status words are matched without regard to ASCII case;
//! every other keyword is matched byte for byte.

use vstd::prelude::*;

use crate::tokens::expect_tag;
use crate::tokens::expect_tag_nc;
use crate::tokens::sp_tag;
use crate::tokens::sp_tag_nc;
use crate::types::Parsed;
use crate::types::SpecRes;

verus! {

/// The bytes of `<SP>`.
pub open spec fn kw_sp() -> Seq<u8> {
    seq![32u8]
}

/// Keyword match of `<SP>` at position `i`, byte for byte.
pub open spec fn sp_kw_sp(s: Seq<u8>, i: int) -> SpecRes<()> {
    sp_tag(s, i, kw_sp())
}

/// Matches `<SP>` at position `i`, byte for byte.
pub fn tag_sp(s: &[u8], i: usize) -> (r: Parsed<()>)
    requires
        i <= s@.len(),
    ensures
        r.deep_view() == sp_kw_sp(s@, i as int),
        r matches Parsed::Val(_, j) ==> j == i + kw_sp().len() && i < j <= s@.len(),
{
    let t: [u8; 1] = [32u8];
    proof {
        assert(t@ =~= kw_sp());
    }
    expect_tag(s, i, &t)
}

/// The bytes of `<CR><LF>`.
pub open spec fn kw_crlf() -> Seq<u8> {
    seq![13u8, 10u8]
}

/// Keyword match of `<CR><LF>` at position `i`, byte for byte.
pub open spec fn sp_kw_crlf(s: Seq<u8>, i: int) -> SpecRes<()> {
    sp_tag(s, i, kw_crlf())
}

/// Matches `<CR><LF>` at position `i`, byte for byte.
pub fn tag_crlf(s: &[u8], i: usize) -> (r: Parsed<()>)
    requires
        i <= s@.len(),
    ensures
        r.deep_view() == sp_kw_crlf(s@, i as int),
        r matches Parsed::Val(_, j) ==> j == i + kw_crlf().len() && i < j <= s@.len(),
{
    let t: [u8; 2] = [13u8, 10u8];
    proof {
        assert(t@ =~= kw_crlf());
    }
    expect_tag(s, i, &t)
}

/// The bytes of `*<SP>`.
pub open spec fn kw_untagged() -> Seq<u8> {
    seq![42u8, 32u8]
}

/// Keyword match of `*<SP>` at position `i`, byte for byte.
pub open spec fn sp_kw_untagged(s: Seq<u8>, i: int) -> SpecRes<()> {
    sp_tag(s, i, kw_untagged())
}

/// Matches `*<SP>` at position `i`, byte for byte.
pub fn tag_untagged(s: &[u8], i: usize) -> (r: Parsed<()>)
    requires
        i <= s@.len(),
    ensures
        r.deep_view() == sp_kw_untagged(s@, i as int),
        r matches Parsed::Val(_, j) ==> j == i + kw_untagged().len() && i < j <= s@.len(),
{
    let t: [u8; 2] = [42u8, 32u8];
    proof {
        assert(t@ =~= kw_untagged());
    }
    expect_tag(s, i, &t)
}

/// The bytes of `(`.
pub open spec fn kw_lparen() -> Seq<u8> {
    seq![40u8]
}

/// Keyword match of `(` at position `i`, byte for byte.
pub open spec fn sp_kw_lparen(s: Seq<u8>, i: int) -> SpecRes<()> {
    sp_tag(s, i, kw_lparen())
}

/// Matches `(` at position `i`, byte for byte.
pub fn tag_lparen(s: &[u8], i: usize) -> (r: Parsed<()>)
    requires
        i <= s@.len(),
    ensures
        r.deep_view() == sp_kw_lparen(s@, i as int),
        r matches Parsed::Val(_, j) ==> j == i + kw_lparen().len() && i < j <= s@.len(),
{
    let t: [u8; 1] = [40u8];
    proof {
        assert(t@ =~= kw_lparen());
    }
    expect_tag(s, i, &t)
}

/// The bytes of `)`.
pub open spec fn kw_rparen() -> Seq<u8> {
    seq![41u8]
}

/// Keyword match of `)` at position `i`, byte for byte.
pub open spec fn sp_kw_rparen(s: Seq<u8>, i: int) -> SpecRes<()> {
    sp_tag(s, i, kw_rparen())
}

/// Matches `)` at position `i`, byte for byte.
pub fn tag_rparen(s: &[u8], i: usize) -> (r: Parsed<()>)
    requires
        i <= s@.len(),
    ensures
        r.deep_view() == sp_kw_rparen(s@, i as int),
        r matches Parsed::Val(_, j) ==> j == i + kw_rparen().len() && i < j <= s@.len(),
{
    let t: [u8; 1] = [41u8];
    proof {
        assert(t@ =~= kw_rparen());
    }
    expect_tag(s, i, &t)
}

/// The bytes of `[`.
pub open spec fn kw_lbracket() -> Seq<u8> {
    seq![91u8]
}

/// Keyword match of `[` at position `i`, byte for byte.
pub open spec fn sp_kw_lbracket(s: Seq<u8>, i: int) -> SpecRes<()> {
    sp_tag(s, i, kw_lbracket())
}

/// Matches `[` at position `i`, byte for byte.
pub fn tag_lbracket(s: &[u8], i: usize) -> (r: Parsed<()>)
    requires
        i <= s@.len(),
    ensures
        r.deep_view() == sp_kw_lbracket(s@, i as int),
        r matches Parsed::Val(_, j) ==> j == i + kw_lbracket().len() && i < j <= s@.len(),
{
    let t: [u8; 1] = [91u8];
    proof {
        assert(t@ =~= kw_lbracket());
    }
    expect_tag(s, i, &t)
}

/// The bytes of `]`.
pub open spec fn kw_rbracket() -> Seq<u8> {
    seq![93u8]
}

/// Keyword match of `]` at position `i`, byte for byte.
pub open spec fn sp_kw_rbracket(s: Seq<u8>, i: int) -> SpecRes<()> {
    sp_tag(s, i, kw_rbracket())
}

/// Matches `]` at position `i`, byte for byte.
pub fn tag_rbracket(s: &[u8], i: usize) -> (r: Parsed<()>)
    requires
        i <= s@.len(),
    ensures
        r.deep_view() == sp_kw_rbracket(s@, i as int),
        r matches Parsed::Val(_, j) ==> j == i + kw_rbracket().len() && i < j <= s@.len(),
{
    let t: [u8; 1] = [93u8];
    proof {
        assert(t@ =~= kw_rbracket());
    }
    expect_tag(s, i, &t)
}

/// The bytes of `{`.
pub open spec fn kw_lbrace() -> Seq<u8> {
    seq![123u8]
}

/// Keyword match of `{` at position `i`, byte for byte.
pub open spec fn sp_kw_lbrace(s: Seq<u8>, i: int) -> SpecRes<()> {
    sp_tag(s, i, kw_lbrace())
}

/// Matches `{` at position `i`, byte for byte.
pub fn tag_lbrace(s: &[u8], i: usize) -> (r: Parsed<()>)
    requires
        i <= s@.len(),
    ensures
        r.deep_view() == sp_kw_lbrace(s@, i as int),
        r matches Parsed::Val(_, j) ==> j == i + kw_lbrace().len() && i < j <= s@.len(),
{
    let t: [u8; 1] = [123u8];
    proof {
        assert(t@ =~= kw_lbrace());
    }
    expect_tag(s, i, &t)
}

/// The bytes of `}<CR><LF>`.
pub open spec fn kw_rbrace_crlf() -> Seq<u8> {
    seq![125u8, 13u8, 10u8]
}

/// Keyword match of `}<CR><LF>` at position `i`, byte for byte.
pub open spec fn sp_kw_rbrace_crlf(s: Seq<u8>, i: int) -> SpecRes<()> {
    sp_tag(s, i, kw_rbrace_crlf())
}

/// Matches `}<CR><LF>` at position `i`, byte for byte.
pub fn tag_rbrace_crlf(s: &[u8], i: usize) -> (r: Parsed<()>)
    requires
        i <= s@.len(),
    ensures
        r.deep_view() == sp_kw_rbrace_crlf(s@, i as int),
        r matches Parsed::Val(_, j) ==> j == i + kw_rbrace_crlf().len() && i < j <= s@.len(),
{
    let t: [u8; 3] = [125u8, 13u8, 10u8];
    proof {
        assert(t@ =~= kw_rbrace_crlf());
    }
    expect_tag(s, i, &t)
}

/// The bytes of `"`.
pub open spec fn kw_dquote() -> Seq<u8> {
    seq![34u8]
}

/// Keyword match of `"` at position `i`, byte for byte.
pub open spec fn sp_kw_dquote(s: Seq<u8>, i: int) -> SpecRes<()> {
    sp_tag(s, i, kw_dquote())
}

/// Matches `"` at position `i`, byte for byte.
pub fn tag_dquote(s: &[u8], i: usize) -> (r: Parsed<()>)
    requires
        i <= s@.len(),
    ensures
        r.deep_view() == sp_kw_dquote(s@, i as int),
        r matches Parsed::Val(_, j) ==> j == i + kw_dquote().len() && i < j <= s@.len(),
{
    let t: [u8; 1] = [34u8];
    proof {
        assert(t@ =~= kw_dquote());
    }
    expect_tag(s, i, &t)
}

/// The bytes of `NIL`.
pub open spec fn kw_nil() -> Seq<u8> {
    seq![78u8, 73u8, 76u8]
}

/// Keyword match of `NIL` at position `i`, byte for byte.
pub open spec fn sp_kw_nil(s: Seq<u8>, i: int) -> SpecRes<()> {
    sp_tag(s, i, kw_nil())
}

/// Matches `NIL` at position `i`, byte for byte.
pub fn tag_nil(s: &[u8], i: usize) -> (r: Parsed<()>)
    requires
        i <= s@.len(),
    ensures
        r.deep_view() == sp_kw_nil(s@, i as int),
        r matches Parsed::Val(_, j) ==> j == i + kw_nil().len() && i < j <= s@.len(),
{
    let t: [u8; 3] = [78u8, 73u8, 76u8];
    proof {
        assert(t@ =~= kw_nil());
    }
    expect_tag(s, i, &t)
}

/// The bytes of `\*`.
pub open spec fn kw_bslash_star() -> Seq<u8> {
    seq![92u8, 42u8]
}

/// Keyword match of `\*` at position `i`, byte for byte.
pub open spec fn sp_kw_bslash_star(s: Seq<u8>, i: int) -> SpecRes<()> {
    sp_tag(s, i, kw_bslash_star())
}

/// Matches `\*` at position `i`, byte for byte.
pub fn tag_bslash_star(s: &[u8], i: usize) -> (r: Parsed<()>)
    requires
        i <= s@.len(),
    ensures
        r.deep_view() == sp_kw_bslash_star(s@, i as int),
        r matches Parsed::Val(_, j) ==> j == i + kw_bslash_star().len() && i < j <= s@.len(),
{
    let t: [u8; 2] = [92u8, 42u8];
    proof {
        assert(t@ =~= kw_bslash_star());
    }
    expect_tag(s, i, &t)
}

/// The bytes of `OK`.
pub open spec fn kw_ok() -> Seq<u8> {
    seq![79u8, 75u8]
}

/// Keyword match of `OK` at position `i`, up to ASCII case.
pub open spec fn sp_kw_ok(s: Seq<u8>, i: int) -> SpecRes<()> {
    sp_tag_nc(s, i, kw_ok())
}

/// Matches `OK` at position `i`, up to ASCII case.
pub fn tag_ok(s: &[u8], i: usize) -> (r: Parsed<()>)
    requires
        i <= s@.len(),
    ensures
        r.deep_view() == sp_kw_ok(s@, i as int),
        r matches Parsed::Val(_, j) ==> j == i + kw_ok().len() && i < j <= s@.len(),
{
    let t: [u8; 2] = [79u8, 75u8];
    proof {
        assert(t@ =~= kw_ok());
    }
    expect_tag_nc(s, i, &t)
}

/// The bytes of `NO`.
pub open spec fn kw_no() -> Seq<u8> {
    seq![78u8, 79u8]
}

/// Keyword match of `NO` at position `i`, up to ASCII case.
pub open spec fn sp_kw_no(s: Seq<u8>, i: int) -> SpecRes<()> {
    sp_tag_nc(s, i, kw_no())
}

/// Matches `NO` at position `i`, up to ASCII case.
pub fn tag_no(s: &[u8], i: usize) -> (r: Parsed<()>)
    requires
        i <= s@.len(),
    ensures
        r.deep_view() == sp_kw_no(s@, i as int),
        r matches Parsed::Val(_, j) ==> j == i + kw_no().len() && i < j <= s@.len(),
{
    let t: [u8; 2] = [78u8, 79u8];
    proof {
        assert(t@ =~= kw_no());
    }
    expect_tag_nc(s, i, &t)
}

/// The bytes of `BAD`.
pub open spec fn kw_bad() -> Seq<u8> {
    seq![66u8, 65u8, 68u8]
}

/// Keyword match of `BAD` at position `i`, up to ASCII case.
pub open spec fn sp_kw_bad(s: Seq<u8>, i: int) -> SpecRes<()> {
    sp_tag_nc(s, i, kw_bad())
}

/// Matches `BAD` at position `i`, up to ASCII case.
pub fn tag_bad(s: &[u8], i: usize) -> (r: Parsed<()>)
    requires
        i <= s@.len(),
    ensures
        r.deep_view() == sp_kw_bad(s@, i as int),
        r matches Parsed::Val(_, j) ==> j == i + kw_bad().len() && i < j <= s@.len(),
{
    let t: [u8; 3] = [66u8, 65u8, 68u8];
    proof {
        assert(t@ =~= kw_bad());
    }
    expect_tag_nc(s, i, &t)
}

/// The bytes of `PREAUTH`.
pub open spec fn kw_preauth() -> Seq<u8> {
    seq![80u8, 82u8, 69u8, 65u8, 85u8, 84u8, 72u8]
}

/// Keyword match of `PREAUTH` at position `i`, up to ASCII case.
pub open spec fn sp_kw_preauth(s: Seq<u8>, i: int) -> SpecRes<()> {
    sp_tag_nc(s, i, kw_preauth())
}

/// Matches `PREAUTH` at position `i`, up to ASCII case.
pub fn tag_preauth(s: &[u8], i: usize) -> (r: Parsed<()>)
    requires
        i <= s@.len(),
    ensures
        r.deep_view() == sp_kw_preauth(s@, i as int),
        r matches Parsed::Val(_, j) ==> j == i + kw_preauth().len() && i < j <= s@.len(),
{
    let t: [u8; 7] = [80u8, 82u8, 69u8, 65u8, 85u8, 84u8, 72u8];
    proof {
        assert(t@ =~= kw_preauth());
    }
    expect_tag_nc(s, i, &t)
}

/// The bytes of `BYE`.
pub open spec fn kw_bye() -> Seq<u8> {
    seq![66u8, 89u8, 69u8]
}

/// Keyword match of `BYE` at position `i`, up to ASCII case.
pub open spec fn sp_kw_bye(s: Seq<u8>, i: int) -> SpecRes<()> {
    sp_tag_nc(s, i, kw_bye())
}

/// Matches `BYE` at position `i`, up to ASCII case.
pub fn tag_bye(s: &[u8], i: usize) -> (r: Parsed<()>)
    requires
        i <= s@.len(),
    ensures
        r.deep_view() == sp_kw_bye(s@, i as int),
        r matches Parsed::Val(_, j) ==> j == i + kw_bye().len() && i < j <= s@.len(),
{
    let t: [u8; 3] = [66u8, 89u8, 69u8];
    proof {
        assert(t@ =~= kw_bye());
    }
    expect_tag_nc(s, i, &t)
}

/// The bytes of `PERMANENTFLAGS<SP>(`.
pub open spec fn kw_permanent_flags() -> Seq<u8> {
    seq![80u8, 69u8, 82u8, 77u8, 65u8, 78u8, 69u8, 78u8, 84u8, 70u8, 76u8, 65u8, 71u8, 83u8, 32u8, 40u8]
}

/// Keyword match of `PERMANENTFLAGS<SP>(` at position `i`, byte for byte.
pub open spec fn sp_kw_permanent_flags(s: Seq<u8>, i: int) -> SpecRes<()> {
    sp_tag(s, i, kw_permanent_flags())
}

/// Matches `PERMANENTFLAGS<SP>(` at position `i`, byte for byte.
pub fn tag_permanent_flags(s: &[u8], i: usize) -> (r: Parsed<()>)
    requires
        i <= s@.len(),
    ensures
        r.deep_view() == sp_kw_permanent_flags(s@, i as int),
        r matches Parsed::Val(_, j) ==> j == i + kw_permanent_flags().len() && i < j <= s@.len(),
{
    let t: [u8; 16] = [80u8, 69u8, 82u8, 77u8, 65u8, 78u8, 69u8, 78u8, 84u8, 70u8, 76u8, 65u8, 71u8, 83u8, 32u8, 40u8];
    proof {
        assert(t@ =~= kw_permanent_flags());
    }
    expect_tag(s, i, &t)
}

/// The bytes of `UIDVALIDITY<SP>`.
pub open spec fn kw_uid_validity() -> Seq<u8> {
    seq![85u8, 73u8, 68u8, 86u8, 65u8, 76u8, 73u8, 68u8, 73u8, 84u8, 89u8, 32u8]
}

/// Keyword match of `UIDVALIDITY<SP>` at position `i`, byte for byte.
pub open spec fn sp_kw_uid_validity(s: Seq<u8>, i: int) -> SpecRes<()> {
    sp_tag(s, i, kw_uid_validity())
}

/// Matches `UIDVALIDITY<SP>` at position `i`, byte for byte.
pub fn tag_uid_validity(s: &[u8], i: usize) -> (r: Parsed<()>)
    requires
        i <= s@.len(),
    ensures
        r.deep_view() == sp_kw_uid_validity(s@, i as int),
        r matches Parsed::Val(_, j) ==> j == i + kw_uid_validity().len() && i < j <= s@.len(),
{
    let t: [u8; 12] = [85u8, 73u8, 68u8, 86u8, 65u8, 76u8, 73u8, 68u8, 73u8, 84u8, 89u8, 32u8];
    proof {
        assert(t@ =~= kw_uid_validity());
    }
    expect_tag(s, i, &t)
}

/// The bytes of `UIDNEXT<SP>`.
pub open spec fn kw_uid_next() -> Seq<u8> {
    seq![85u8, 73u8, 68u8, 78u8, 69u8, 88u8, 84u8, 32u8]
}

/// Keyword match of `UIDNEXT<SP>` at position `i`, byte for byte.
pub open spec fn sp_kw_uid_next(s: Seq<u8>, i: int) -> SpecRes<()> {
    sp_tag(s, i, kw_uid_next())
}

/// Matches `UIDNEXT<SP>` at position `i`, byte for byte.
pub fn tag_uid_next(s: &[u8], i: usize) -> (r: Parsed<()>)
    requires
        i <= s@.len(),
    ensures
        r.deep_view() == sp_kw_uid_next(s@, i as int),
        r matches Parsed::Val(_, j) ==> j == i + kw_uid_next().len() && i < j <= s@.len(),
{
    let t: [u8; 8] = [85u8, 73u8, 68u8, 78u8, 69u8, 88u8, 84u8, 32u8];
    proof {
        assert(t@ =~= kw_uid_next());
    }
    expect_tag(s, i, &t)
}

/// The bytes of `READ-ONLY`.
pub open spec fn kw_read_only() -> Seq<u8> {
    seq![82u8, 69u8, 65u8, 68u8, 45u8, 79u8, 78u8, 76u8, 89u8]
}

/// Keyword match of `READ-ONLY` at position `i`, byte for byte.
pub open spec fn sp_kw_read_only(s: Seq<u8>, i: int) -> SpecRes<()> {
    sp_tag(s, i, kw_read_only())
}

/// Matches `READ-ONLY` at position `i`, byte for byte.
pub fn tag_read_only(s: &[u8], i: usize) -> (r: Parsed<()>)
    requires
        i <= s@.len(),
    ensures
        r.deep_view() == sp_kw_read_only(s@, i as int),
        r matches Parsed::Val(_, j) ==> j == i + kw_read_only().len() && i < j <= s@.len(),
{
    let t: [u8; 9] = [82u8, 69u8, 65u8, 68u8, 45u8, 79u8, 78u8, 76u8, 89u8];
    proof {
        assert(t@ =~= kw_read_only());
    }
    expect_tag(s, i, &t)
}

/// The bytes of `READ-WRITE`.
pub open spec fn kw_read_write() -> Seq<u8> {
    seq![82u8, 69u8, 65u8, 68u8, 45u8, 87u8, 82u8, 73u8, 84u8, 69u8]
}

/// Keyword match of `READ-WRITE` at position `i`, byte for byte.
pub open spec fn sp_kw_read_write(s: Seq<u8>, i: int) -> SpecRes<()> {
    sp_tag(s, i, kw_read_write())
}

/// Matches `READ-WRITE` at position `i`, byte for byte.
pub fn tag_read_write(s: &[u8], i: usize) -> (r: Parsed<()>)
    requires
        i <= s@.len(),
    ensures
        r.deep_view() == sp_kw_read_write(s@, i as int),
        r matches Parsed::Val(_, j) ==> j == i + kw_read_write().len() && i < j <= s@.len(),
{
    let t: [u8; 10] = [82u8, 69u8, 65u8, 68u8, 45u8, 87u8, 82u8, 73u8, 84u8, 69u8];
    proof {
        assert(t@ =~= kw_read_write());
    }
    expect_tag(s, i, &t)
}

/// The bytes of `TRYCREATE`.
pub open spec fn kw_try_create() -> Seq<u8> {
    seq![84u8, 82u8, 89u8, 67u8, 82u8, 69u8, 65u8, 84u8, 69u8]
}

/// Keyword match of `TRYCREATE` at position `i`, byte for byte.
pub open spec fn sp_kw_try_create(s: Seq<u8>, i: int) -> SpecRes<()> {
    sp_tag(s, i, kw_try_create())
}

/// Matches `TRYCREATE` at position `i`, byte for byte.
pub fn tag_try_create(s: &[u8], i: usize) -> (r: Parsed<()>)
    requires
        i <= s@.len(),
    ensures
        r.deep_view() == sp_kw_try_create(s@, i as int),
        r matches Parsed::Val(_, j) ==> j == i + kw_try_create().len() && i < j <= s@.len(),
{
    let t: [u8; 9] = [84u8, 82u8, 89u8, 67u8, 82u8, 69u8, 65u8, 84u8, 69u8];
    proof {
        assert(t@ =~= kw_try_create());
    }
    expect_tag(s, i, &t)
}

/// The bytes of `HIGHESTMODSEQ<SP>`.
pub open spec fn kw_highest_mod_seq() -> Seq<u8> {
    seq![72u8, 73u8, 71u8, 72u8, 69u8, 83u8, 84u8, 77u8, 79u8, 68u8, 83u8, 69u8, 81u8, 32u8]
}

/// Keyword match of `HIGHESTMODSEQ<SP>` at position `i`, byte for byte.
pub open spec fn sp_kw_highest_mod_seq(s: Seq<u8>, i: int) -> SpecRes<()> {
    sp_tag(s, i, kw_highest_mod_seq())
}

/// Matches `HIGHESTMODSEQ<SP>` at position `i`, byte for byte.
pub fn tag_highest_mod_seq(s: &[u8], i: usize) -> (r: Parsed<()>)
    requires
        i <= s@.len(),
    ensures
        r.deep_view() == sp_kw_highest_mod_seq(s@, i as int),
        r matches Parsed::Val(_, j) ==> j == i + kw_highest_mod_seq().len() && i < j <= s@.len(),
{
    let t: [u8; 14] = [72u8, 73u8, 71u8, 72u8, 69u8, 83u8, 84u8, 77u8, 79u8, 68u8, 83u8, 69u8, 81u8, 32u8];
    proof {
        assert(t@ =~= kw_highest_mod_seq());
    }
    expect_tag(s, i, &t)
}

/// The bytes of `CAPABILITY`.
pub open spec fn kw_capability() -> Seq<u8> {
    seq![67u8, 65u8, 80u8, 65u8, 66u8, 73u8, 76u8, 73u8, 84u8, 89u8]
}

/// Keyword match of `CAPABILITY` at position `i`, byte for byte.
pub open spec fn sp_kw_capability(s: Seq<u8>, i: int) -> SpecRes<()> {
    sp_tag(s, i, kw_capability())
}

/// Matches `CAPABILITY` at position `i`, byte for byte.
pub fn tag_capability(s: &[u8], i: usize) -> (r: Parsed<()>)
    requires
        i <= s@.len(),
    ensures
        r.deep_view() == sp_kw_capability(s@, i as int),
        r matches Parsed::Val(_, j) ==> j == i + kw_capability().len() && i < j <= s@.len(),
{
    let t: [u8; 10] = [67u8, 65u8, 80u8, 65u8, 66u8, 73u8, 76u8, 73u8, 84u8, 89u8];
    proof {
        assert(t@ =~= kw_capability());
    }
    expect_tag(s, i, &t)
}

/// The bytes of `FLAGS<SP>`.
pub open spec fn kw_flags_sp() -> Seq<u8> {
    seq![70u8, 76u8, 65u8, 71u8, 83u8, 32u8]
}

/// Keyword match of `FLAGS<SP>` at position `i`, byte for byte.
pub open spec fn sp_kw_flags_sp(s: Seq<u8>, i: int) -> SpecRes<()> {
    sp_tag(s, i, kw_flags_sp())
}

/// Matches `FLAGS<SP>` at position `i`, byte for byte.
pub fn tag_flags_sp(s: &[u8], i: usize) -> (r: Parsed<()>)
    requires
        i <= s@.len(),
    ensures
        r.deep_view() == sp_kw_flags_sp(s@, i as int),
        r matches Parsed::Val(_, j) ==> j == i + kw_flags_sp().len() && i < j <= s@.len(),
{
    let t: [u8; 6] = [70u8, 76u8, 65u8, 71u8, 83u8, 32u8];
    proof {
        assert(t@ =~= kw_flags_sp());
    }
    expect_tag(s, i, &t)
}

/// The bytes of `<SP>EXISTS`.
pub open spec fn kw_exists() -> Seq<u8> {
    seq![32u8, 69u8, 88u8, 73u8, 83u8, 84u8, 83u8]
}

/// Keyword match of `<SP>EXISTS` at position `i`, byte for byte.
pub open spec fn sp_kw_exists(s: Seq<u8>, i: int) -> SpecRes<()> {
    sp_tag(s, i, kw_exists())
}

/// Matches `<SP>EXISTS` at position `i`, byte for byte.
pub fn tag_exists(s: &[u8], i: usize) -> (r: Parsed<()>)
    requires
        i <= s@.len(),
    ensures
        r.deep_view() == sp_kw_exists(s@, i as int),
        r matches Parsed::Val(_, j) ==> j == i + kw_exists().len() && i < j <= s@.len(),
{
    let t: [u8; 7] = [32u8, 69u8, 88u8, 73u8, 83u8, 84u8, 83u8];
    proof {
        assert(t@ =~= kw_exists());
    }
    expect_tag(s, i, &t)
}

/// The bytes of `<SP>RECENT`.
pub open spec fn kw_recent() -> Seq<u8> {
    seq![32u8, 82u8, 69u8, 67u8, 69u8, 78u8, 84u8]
}

/// Keyword match of `<SP>RECENT` at position `i`, byte for byte.
pub open spec fn sp_kw_recent(s: Seq<u8>, i: int) -> SpecRes<()> {
    sp_tag(s, i, kw_recent())
}

/// Matches `<SP>RECENT` at position `i`, byte for byte.
pub fn tag_recent(s: &[u8], i: usize) -> (r: Parsed<()>)
    requires
        i <= s@.len(),
    ensures
        r.deep_view() == sp_kw_recent(s@, i as int),
        r matches Parsed::Val(_, j) ==> j == i + kw_recent().len() && i < j <= s@.len(),
{
    let t: [u8; 7] = [32u8, 82u8, 69u8, 67u8, 69u8, 78u8, 84u8];
    proof {
        assert(t@ =~= kw_recent());
    }
    expect_tag(s, i, &t)
}

/// The bytes of `<SP>EXPUNGE`.
pub open spec fn kw_expunge() -> Seq<u8> {
    seq![32u8, 69u8, 88u8, 80u8, 85u8, 78u8, 71u8, 69u8]
}

/// Keyword match of `<SP>EXPUNGE` at position `i`, byte for byte.
pub open spec fn sp_kw_expunge(s: Seq<u8>, i: int) -> SpecRes<()> {
    sp_tag(s, i, kw_expunge())
}

/// Matches `<SP>EXPUNGE` at position `i`, byte for byte.
pub fn tag_expunge(s: &[u8], i: usize) -> (r: Parsed<()>)
    requires
        i <= s@.len(),
    ensures
        r.deep_view() == sp_kw_expunge(s@, i as int),
        r matches Parsed::Val(_, j) ==> j == i + kw_expunge().len() && i < j <= s@.len(),
{
    let t: [u8; 8] = [32u8, 69u8, 88u8, 80u8, 85u8, 78u8, 71u8, 69u8];
    proof {
        assert(t@ =~= kw_expunge());
    }
    expect_tag(s, i, &t)
}

/// The bytes of `<SP>FETCH<SP>`.
pub open spec fn kw_fetch() -> Seq<u8> {
    seq![32u8, 70u8, 69u8, 84u8, 67u8, 72u8, 32u8]
}

/// Keyword match of `<SP>FETCH<SP>` at position `i`, byte for byte.
pub open spec fn sp_kw_fetch(s: Seq<u8>, i: int) -> SpecRes<()> {
    sp_tag(s, i, kw_fetch())
}

/// Matches `<SP>FETCH<SP>` at position `i`, byte for byte.
pub fn tag_fetch(s: &[u8], i: usize) -> (r: Parsed<()>)
    requires
        i <= s@.len(),
    ensures
        r.deep_view() == sp_kw_fetch(s@, i as int),
        r matches Parsed::Val(_, j) ==> j == i + kw_fetch().len() && i < j <= s@.len(),
{
    let t: [u8; 7] = [32u8, 70u8, 69u8, 84u8, 67u8, 72u8, 32u8];
    proof {
        assert(t@ =~= kw_fetch());
    }
    expect_tag(s, i, &t)
}

/// The bytes of `ENVELOPE<SP>(`.
pub open spec fn kw_envelope() -> Seq<u8> {
    seq![69u8, 78u8, 86u8, 69u8, 76u8, 79u8, 80u8, 69u8, 32u8, 40u8]
}

/// Keyword match of `ENVELOPE<SP>(` at position `i`, byte for byte.
pub open spec fn sp_kw_envelope(s: Seq<u8>, i: int) -> SpecRes<()> {
    sp_tag(s, i, kw_envelope())
}

/// Matches `ENVELOPE<SP>(` at position `i`, byte for byte.
pub fn tag_envelope(s: &[u8], i: usize) -> (r: Parsed<()>)
    requires
        i <= s@.len(),
    ensures
        r.deep_view() == sp_kw_envelope(s@, i as int),
        r matches Parsed::Val(_, j) ==> j == i + kw_envelope().len() && i < j <= s@.len(),
{
    let t: [u8; 10] = [69u8, 78u8, 86u8, 69u8, 76u8, 79u8, 80u8, 69u8, 32u8, 40u8];
    proof {
        assert(t@ =~= kw_envelope());
    }
    expect_tag(s, i, &t)
}

/// The bytes of `INTERNALDATE<SP>`.
pub open spec fn kw_internal_date() -> Seq<u8> {
    seq![73u8, 78u8, 84u8, 69u8, 82u8, 78u8, 65u8, 76u8, 68u8, 65u8, 84u8, 69u8, 32u8]
}

/// Keyword match of `INTERNALDATE<SP>` at position `i`, byte for byte.
pub open spec fn sp_kw_internal_date(s: Seq<u8>, i: int) -> SpecRes<()> {
    sp_tag(s, i, kw_internal_date())
}

/// Matches `INTERNALDATE<SP>` at position `i`, byte for byte.
pub fn tag_internal_date(s: &[u8], i: usize) -> (r: Parsed<()>)
    requires
        i <= s@.len(),
    ensures
        r.deep_view() == sp_kw_internal_date(s@, i as int),
        r matches Parsed::Val(_, j) ==> j == i + kw_internal_date().len() && i < j <= s@.len(),
{
    let t: [u8; 13] = [73u8, 78u8, 84u8, 69u8, 82u8, 78u8, 65u8, 76u8, 68u8, 65u8, 84u8, 69u8, 32u8];
    proof {
        assert(t@ =~= kw_internal_date());
    }
    expect_tag(s, i, &t)
}

/// The bytes of `RFC822<SP>`.
pub open spec fn kw_rfc822() -> Seq<u8> {
    seq![82u8, 70u8, 67u8, 56u8, 50u8, 50u8, 32u8]
}

/// Keyword match of `RFC822<SP>` at position `i`, byte for byte.
pub open spec fn sp_kw_rfc822(s: Seq<u8>, i: int) -> SpecRes<()> {
    sp_tag(s, i, kw_rfc822())
}

/// Matches `RFC822<SP>` at position `i`, byte for byte.
pub fn tag_rfc822(s: &[u8], i: usize) -> (r: Parsed<()>)
    requires
        i <= s@.len(),
    ensures
        r.deep_view() == sp_kw_rfc822(s@, i as int),
        r matches Parsed::Val(_, j) ==> j == i + kw_rfc822().len() && i < j <= s@.len(),
{
    let t: [u8; 7] = [82u8, 70u8, 67u8, 56u8, 50u8, 50u8, 32u8];
    proof {
        assert(t@ =~= kw_rfc822());
    }
    expect_tag(s, i, &t)
}

/// The bytes of `RFC822.SIZE<SP>`.
pub open spec fn kw_rfc822_size() -> Seq<u8> {
    seq![82u8, 70u8, 67u8, 56u8, 50u8, 50u8, 46u8, 83u8, 73u8, 90u8, 69u8, 32u8]
}

/// Keyword match of `RFC822.SIZE<SP>` at position `i`, byte for byte.
pub open spec fn sp_kw_rfc822_size(s: Seq<u8>, i: int) -> SpecRes<()> {
    sp_tag(s, i, kw_rfc822_size())
}

/// Matches `RFC822.SIZE<SP>` at position `i`, byte for byte.
pub fn tag_rfc822_size(s: &[u8], i: usize) -> (r: Parsed<()>)
    requires
        i <= s@.len(),
    ensures
        r.deep_view() == sp_kw_rfc822_size(s@, i as int),
        r matches Parsed::Val(_, j) ==> j == i + kw_rfc822_size().len() && i < j <= s@.len(),
{
    let t: [u8; 12] = [82u8, 70u8, 67u8, 56u8, 50u8, 50u8, 46u8, 83u8, 73u8, 90u8, 69u8, 32u8];
    proof {
        assert(t@ =~= kw_rfc822_size());
    }
    expect_tag(s, i, &t)
}

/// The bytes of `UID<SP>`.
pub open spec fn kw_uid() -> Seq<u8> {
    seq![85u8, 73u8, 68u8, 32u8]
}

/// Keyword match of `UID<SP>` at position `i`, byte for byte.
pub open spec fn sp_kw_uid(s: Seq<u8>, i: int) -> SpecRes<()> {
    sp_tag(s, i, kw_uid())
}

/// Matches `UID<SP>` at position `i`, byte for byte.
pub fn tag_uid(s: &[u8], i: usize) -> (r: Parsed<()>)
    requires
        i <= s@.len(),
    ensures
        r.deep_view() == sp_kw_uid(s@, i as int),
        r matches Parsed::Val(_, j) ==> j == i + kw_uid().len() && i < j <= s@.len(),
{
    let t: [u8; 4] = [85u8, 73u8, 68u8, 32u8];
    proof {
        assert(t@ =~= kw_uid());
    }
    expect_tag(s, i, &t)
}

/// The bytes of `MODSEQ<SP>(`.
pub open spec fn kw_mod_seq() -> Seq<u8> {
    seq![77u8, 79u8, 68u8, 83u8, 69u8, 81u8, 32u8, 40u8]
}

/// Keyword match of `MODSEQ<SP>(` at position `i`, byte for byte.
pub open spec fn sp_kw_mod_seq(s: Seq<u8>, i: int) -> SpecRes<()> {
    sp_tag(s, i, kw_mod_seq())
}

/// Matches `MODSEQ<SP>(` at position `i`, byte for byte.
pub fn tag_mod_seq(s: &[u8], i: usize) -> (r: Parsed<()>)
    requires
        i <= s@.len(),
    ensures
        r.deep_view() == sp_kw_mod_seq(s@, i as int),
        r matches Parsed::Val(_, j) ==> j == i + kw_mod_seq().len() && i < j <= s@.len(),
{
    let t: [u8; 8] = [77u8, 79u8, 68u8, 83u8, 69u8, 81u8, 32u8, 40u8];
    proof {
        assert(t@ =~= kw_mod_seq());
    }
    expect_tag(s, i, &t)
}

} // verus!
