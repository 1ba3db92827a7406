//! The decoder's laws: decoding a canonical serialization yields the value
//! it was made from. Proved bottom-up, rule by rule, over the
//! specification-level grammar of `tokens`, `values` and `response`.

use vstd::prelude::*;

use crate::chars::is_crlf_byte;
use crate::chars::is_tag_char;
use crate::kw::kw_crlf;
use crate::kw::kw_dquote;
use crate::kw::kw_lparen;
use crate::kw::kw_nil;
use crate::kw::kw_rparen;
use crate::kw::kw_sp;
use crate::kw::kw_untagged;
use crate::kw::kw_ok;
use crate::kw::kw_no;
use crate::kw::kw_bad;
use crate::kw::kw_preauth;
use crate::kw::kw_bye;
use crate::tokens::nc_match_upto;
use crate::tokens::sp_nstring;
use crate::tokens::sp_quoted_body;
use crate::tokens::sp_scan_tag;
use crate::tokens::sp_scan_text;
use crate::tokens::sp_tag;
use crate::tokens::sp_tag_nc;
use crate::tokens::sp_text;
use crate::tokens::tag_match_upto;
use crate::types::SpecAddress;
use crate::types::SpecEnvelope;
use crate::types::SpecRes;
use crate::types::SpecResponse;
use crate::types::Status;
use crate::values::sp_address;
use crate::values::sp_resp_text;
use crate::response::sp_response;
use crate::response::sp_status;
use crate::response::sp_tag_token;
use crate::chars::is_digit_byte;
use crate::wire::code_free;
use crate::wire::dec;
use crate::wire::esc;
use crate::wire::ser_address;
use crate::wire::ser_addresses;
use crate::wire::ser_opt_addresses;
use crate::wire::valid_opt_addresses;
use crate::wire::ser_done_line;
use crate::wire::ser_envelope_body;
use crate::wire::swap_from_sender;
use crate::wire::ser_nstring;
use crate::wire::ser_quoted;
use crate::wire::ser_status;
use crate::wire::valid_tag;
use crate::wire::valid_text;

verus! {

// ------------------------------------------------------------ positioning

/// The bytes `t` stand verbatim at position `i` of `s`.
pub open spec fn bytes_at(s: Seq<u8>, i: int, t: Seq<u8>) -> bool {
    0 <= i && i + t.len() <= s.len() && s.subrange(i, i + t.len()) == t
}

/// Each byte of a verbatim block can be read off `s` directly.
pub proof fn lemma_bytes_at_index(s: Seq<u8>, i: int, t: Seq<u8>, k: int)
    requires
        bytes_at(s, i, t),
        0 <= k < t.len(),
    ensures
        s[i + k] == t[k],
{
    assert(t[k] == s.subrange(i, i + t.len())[k]);
}

/// A block that stands at `i` splits into its two halves.
pub proof fn lemma_bytes_at_concat(s: Seq<u8>, i: int, x: Seq<u8>, y: Seq<u8>)
    requires
        bytes_at(s, i, x + y),
    ensures
        bytes_at(s, i, x),
        bytes_at(s, i + x.len(), y),
{
    assert(s.subrange(i, i + x.len()) =~= x) by {
        assert forall|k: int| 0 <= k < x.len() implies s.subrange(i, i + x.len())[k] == x[k] by {
            lemma_bytes_at_index(s, i, x + y, k);
        }
    }
    assert(s.subrange(i + x.len(), i + x.len() + y.len()) =~= y) by {
        assert forall|k: int| 0 <= k < y.len() implies s.subrange(
            i + x.len(),
            i + x.len() + y.len(),
        )[k] == y[k] by {
            lemma_bytes_at_index(s, i, x + y, x.len() + k);
        }
    }
}

// ---------------------------------------------------------- keyword lemmas

/// A keyword standing verbatim at `i` is matched there.
pub proof fn lemma_tag_here(s: Seq<u8>, i: int, t: Seq<u8>)
    requires
        bytes_at(s, i, t),
    ensures
        sp_tag(s, i, t) == SpecRes::<()>::Val((), i + t.len()),
{
    assert forall|k: int| 0 <= k < t.len() implies s[i + k] == t[k] by {
        lemma_bytes_at_index(s, i, t, k);
    }
    assert(tag_match_upto(s, i, t, t.len() as int));
}

/// A keyword whose byte `k` disagrees with the input within reach of the
/// buffer can never be matched.
pub proof fn lemma_tag_fail(s: Seq<u8>, i: int, t: Seq<u8>, k: int)
    requires
        0 <= i,
        0 <= k < t.len(),
        i + k < s.len(),
        s[i + k] != t[k],
    ensures
        sp_tag(s, i, t) == SpecRes::<()>::Fail,
{
    assert(!tag_match_upto(s, i, t, t.len() as int)) by {
        assert(s[i + k] != t[k]);
    }
    assert(!tag_match_upto(s, i, t, s.len() - i)) by {
        assert(s[i + k] != t[k]);
    }
}

/// An upper-case keyword standing verbatim at `i` is matched there even
/// under case-insensitive comparison.
pub proof fn lemma_tag_nc_here(s: Seq<u8>, i: int, t: Seq<u8>)
    requires
        bytes_at(s, i, t),
        forall|k: int| 0 <= k < t.len() ==> !(97 <= #[trigger] t[k] <= 122),
    ensures
        sp_tag_nc(s, i, t) == SpecRes::<()>::Val((), i + t.len()),
{
    assert forall|k: int| 0 <= k < t.len() implies crate::chars::spec_upper(s[i + k]) == t[k] by {
        lemma_bytes_at_index(s, i, t, k);
    }
    assert(nc_match_upto(s, i, t, t.len() as int));
}

/// A keyword whose byte `k` disagrees with the upper-case image of the
/// input within reach of the buffer can never be matched, regardless of
/// case.
pub proof fn lemma_tag_nc_fail(s: Seq<u8>, i: int, t: Seq<u8>, k: int)
    requires
        0 <= i,
        0 <= k < t.len(),
        i + k < s.len(),
        crate::chars::spec_upper(s[i + k]) != t[k],
    ensures
        sp_tag_nc(s, i, t) == SpecRes::<()>::Fail,
{
    assert(!nc_match_upto(s, i, t, t.len() as int)) by {
        assert(crate::chars::spec_upper(s[i + k]) != t[k]);
    }
    assert(!nc_match_upto(s, i, t, s.len() - i)) by {
        assert(crate::chars::spec_upper(s[i + k]) != t[k]);
    }
}

/// A single-byte keyword is matched where its byte stands.
pub proof fn lemma_byte_tag_here(s: Seq<u8>, i: int, t: Seq<u8>)
    requires
        0 <= i < s.len(),
        t.len() == 1,
        s[i] == t[0],
    ensures
        sp_tag(s, i, t) == SpecRes::<()>::Val((), i + 1),
{
    assert(s.subrange(i, i + 1) =~= t);
    lemma_tag_here(s, i, t);
}

// ------------------------------------------------------------- scan lemmas

/// A run of tag bytes bounded by a non-tag byte is scanned exactly to its
/// end.
pub proof fn lemma_scan_tag_region(s: Seq<u8>, i: int, e: int)
    requires
        0 <= i <= e < s.len(),
        forall|k: int| i <= k < e ==> is_tag_char(s[k]),
        !is_tag_char(s[e]),
    ensures
        sp_scan_tag(s, i) == e,
    decreases e - i,
{
    if i < e {
        lemma_scan_tag_region(s, i + 1, e);
    }
}

/// A run of non-CRLF bytes bounded by a CR or LF is scanned exactly to its
/// end.
pub proof fn lemma_scan_text_region(s: Seq<u8>, i: int, e: int)
    requires
        0 <= i <= e < s.len(),
        forall|k: int| i <= k < e ==> !is_crlf_byte(s[k]),
        is_crlf_byte(s[e]),
    ensures
        sp_scan_text(s, i) == e,
    decreases e - i,
{
    if i < e {
        lemma_scan_text_region(s, i + 1, e);
    }
}

// --------------------------------------------------- quoted-string inverse

/// Decoding the escaped body of a quoted string, followed by its closing
/// quote, gives the original content back.
pub proof fn lemma_quoted_body_rt(s: Seq<u8>, i: int, c: Seq<u8>)
    requires
        bytes_at(s, i, esc(c) + seq![34u8]),
    ensures
        sp_quoted_body(s, i) == SpecRes::Val(c, i + esc(c).len() + 1),
    decreases c.len(),
{
    let w = esc(c) + seq![34u8];
    if c.len() == 0 {
        lemma_bytes_at_index(s, i, w, 0);
        assert(c =~= Seq::<u8>::empty());
    } else {
        let rest = c.subrange(1, c.len() as int);
        let wr = esc(rest) + seq![34u8];
        if crate::chars::is_quoted_special(c[0]) {
            lemma_bytes_at_index(s, i, w, 0);
            lemma_bytes_at_index(s, i, w, 1);
            assert(w =~= seq![92u8, c[0]] + wr);
            lemma_bytes_at_concat(s, i, seq![92u8, c[0]], wr);
            lemma_quoted_body_rt(s, i + 2, rest);
            assert(seq![s[i + 1]] + rest =~= c);
        } else {
            lemma_bytes_at_index(s, i, w, 0);
            assert(w =~= seq![c[0]] + wr);
            lemma_bytes_at_concat(s, i, seq![c[0]], wr);
            lemma_quoted_body_rt(s, i + 1, rest);
            assert(seq![s[i]] + rest =~= c);
        }
    }
}

/// Decoding the canonical serialization of a nullable string gives the
/// original back: `NIL` decodes to absence, a quoted form to its content.
pub proof fn lemma_nstring_rt(s: Seq<u8>, i: int, o: Option<Seq<u8>>)
    requires
        bytes_at(s, i, ser_nstring(o)),
    ensures
        sp_nstring(s, i) == SpecRes::Val(o, i + ser_nstring(o).len()),
{
    match o {
        None => {
            lemma_tag_here(s, i, kw_nil());
        },
        Some(c) => {
            let w = ser_quoted(c);
            lemma_bytes_at_index(s, i, w, 0);
            lemma_tag_fail(s, i, kw_nil(), 0);
            lemma_byte_tag_here(s, i, kw_dquote());
            assert(w =~= seq![34u8] + (esc(c) + seq![34u8]));
            lemma_bytes_at_concat(s, i, seq![34u8], esc(c) + seq![34u8]);
            lemma_quoted_body_rt(s, i + 1, c);
        },
    }
}

// ------------------------------------------------------------ address inverse

/// Decoding the canonical serialization of an address gives the original
/// address back.
pub proof fn lemma_address_rt(s: Seq<u8>, i: int, a: SpecAddress)
    requires
        bytes_at(s, i, ser_address(a)),
    ensures
        sp_address(s, i) == SpecRes::Val(a, i + ser_address(a).len()),
{
    let w = ser_address(a);
    let n1 = ser_nstring(a.name);
    let n2 = ser_nstring(a.adl);
    let n3 = ser_nstring(a.mailbox);
    let n4 = ser_nstring(a.host);
    let r1 = n1 + seq![32u8] + n2 + seq![32u8] + n3 + seq![32u8] + n4 + seq![41u8];
    assert(w =~= seq![40u8] + r1);
    lemma_bytes_at_concat(s, i, seq![40u8], r1);
    lemma_bytes_at_index(s, i, w, 0);
    lemma_byte_tag_here(s, i, kw_lparen());
    let p1 = i + 1;
    let r2 = seq![32u8] + n2 + seq![32u8] + n3 + seq![32u8] + n4 + seq![41u8];
    assert(r1 =~= n1 + r2);
    lemma_bytes_at_concat(s, p1, n1, r2);
    lemma_nstring_rt(s, p1, a.name);
    let q1 = p1 + n1.len();
    let r3 = n2 + seq![32u8] + n3 + seq![32u8] + n4 + seq![41u8];
    assert(r2 =~= seq![32u8] + r3);
    lemma_bytes_at_concat(s, q1, seq![32u8], r3);
    lemma_bytes_at_index(s, q1, seq![32u8] + r3, 0);
    lemma_byte_tag_here(s, q1, kw_sp());
    let p2 = q1 + 1;
    let r4 = seq![32u8] + n3 + seq![32u8] + n4 + seq![41u8];
    assert(r3 =~= n2 + r4);
    lemma_bytes_at_concat(s, p2, n2, r4);
    lemma_nstring_rt(s, p2, a.adl);
    let q2 = p2 + n2.len();
    let r5 = n3 + seq![32u8] + n4 + seq![41u8];
    assert(r4 =~= seq![32u8] + r5);
    lemma_bytes_at_concat(s, q2, seq![32u8], r5);
    lemma_bytes_at_index(s, q2, seq![32u8] + r5, 0);
    lemma_byte_tag_here(s, q2, kw_sp());
    let p3 = q2 + 1;
    let r6 = seq![32u8] + n4 + seq![41u8];
    assert(r5 =~= n3 + r6);
    lemma_bytes_at_concat(s, p3, n3, r6);
    lemma_nstring_rt(s, p3, a.mailbox);
    let q3 = p3 + n3.len();
    let r7 = n4 + seq![41u8];
    assert(r6 =~= seq![32u8] + r7);
    lemma_bytes_at_concat(s, q3, seq![32u8], r7);
    lemma_bytes_at_index(s, q3, seq![32u8] + r7, 0);
    lemma_byte_tag_here(s, q3, kw_sp());
    let p4 = q3 + 1;
    assert(r7 =~= n4 + seq![41u8]);
    lemma_bytes_at_concat(s, p4, n4, seq![41u8]);
    lemma_nstring_rt(s, p4, a.host);
    let q4 = p4 + n4.len();
    lemma_bytes_at_index(s, q4, seq![41u8], 0);
    lemma_byte_tag_here(s, q4, kw_rparen());
    assert(a =~= SpecAddress { name: a.name, adl: a.adl, mailbox: a.mailbox, host: a.host });
}

/// Input that does not open with `(` is no address.
pub proof fn lemma_address_fail(s: Seq<u8>, i: int)
    requires
        0 <= i < s.len(),
        s[i] != 40,
    ensures
        sp_address(s, i) == SpecRes::<SpecAddress>::Fail,
{
    lemma_tag_fail(s, i, kw_lparen(), 0);
}

/// The addresses after the first collect the remaining serialized group,
/// stopping exactly at the closing parenthesis.
pub proof fn lemma_addr_seq_rt(s: Seq<u8>, i: int, addrs: Seq<SpecAddress>, acc: Seq<SpecAddress>)
    requires
        bytes_at(s, i, ser_addresses(addrs)),
        i + ser_addresses(addrs).len() < s.len(),
        s[i + ser_addresses(addrs).len()] == 41,
    ensures
        crate::values::sp_addr_rest(s, i, acc) == SpecRes::Val(
            acc + addrs,
            i + ser_addresses(addrs).len(),
        ),
    decreases addrs.len(),
{
    if addrs.len() == 0 {
        lemma_address_fail(s, i);
        assert(acc + addrs =~= acc);
    } else {
        let a0 = addrs[0];
        let rest = addrs.subrange(1, addrs.len() as int);
        lemma_bytes_at_concat(s, i, ser_address(a0), ser_addresses(rest));
        lemma_address_rt(s, i, a0);
        let j = i + ser_address(a0).len();
        lemma_addr_seq_rt(s, j, rest, acc.push(a0));
        assert(acc.push(a0) + rest =~= acc + addrs);
    }
}

/// Decoding the canonical serialization of a nullable address list gives
/// the original back: `NIL` decodes to absence, a parenthesized group to
/// its addresses in order.
#[verifier::spinoff_prover]
#[verifier::rlimit(100)]
pub proof fn lemma_opt_addresses_rt(s: Seq<u8>, i: int, o: Option<Seq<SpecAddress>>)
    requires
        bytes_at(s, i, ser_opt_addresses(o)),
        valid_opt_addresses(o),
    ensures
        crate::values::sp_opt_addresses(s, i) == SpecRes::Val(o, i + ser_opt_addresses(o).len()),
{
    match o {
        None => {
            lemma_tag_here(s, i, kw_nil());
        },
        Some(addrs) => {
            let w = ser_opt_addresses(o);
            let inner = ser_addresses(addrs);
            assert(w =~= seq![40u8] + (inner + seq![41u8]));
            lemma_bytes_at_concat(s, i, seq![40u8], inner + seq![41u8]);
            lemma_bytes_at_concat(s, i + 1, inner, seq![41u8]);
            lemma_bytes_at_index(s, i, seq![40u8], 0);
            lemma_tag_fail(s, i, kw_nil(), 0);
            lemma_byte_tag_here(s, i, kw_lparen());
            let a0 = addrs[0];
            let rest = addrs.subrange(1, addrs.len() as int);
            lemma_bytes_at_concat(s, i + 1, ser_address(a0), ser_addresses(rest));
            lemma_address_rt(s, i + 1, a0);
            let j = i + 1 + ser_address(a0).len();
            lemma_bytes_at_index(s, i + 1 + inner.len(), seq![41u8], 0);
            lemma_addr_seq_rt(s, j, rest, seq![a0]);
            assert(seq![a0] + rest =~= addrs);
            lemma_byte_tag_here(s, i + 1 + inner.len(), kw_rparen());
        },
    }
}

// ----------------------------------------------------------- status inverse

/// Decoding the canonical upper-case status word gives the status back,
/// whichever of the five it is; the earlier alternatives of the ordered
/// choice are refuted byte by byte.
pub proof fn lemma_status_rt(s: Seq<u8>, i: int, st: Status)
    requires
        bytes_at(s, i, ser_status(st)),
    ensures
        sp_status(s, i) == SpecRes::Val(st, i + ser_status(st).len()),
{
    let w = ser_status(st);
    assert forall|k: int| 0 <= k < w.len() implies s[i + k] == w[k] by {
        lemma_bytes_at_index(s, i, w, k);
    }
    match st {
        Status::Okay => {
            lemma_tag_nc_here(s, i, kw_ok());
        },
        Status::No => {
            lemma_tag_nc_fail(s, i, kw_ok(), 0);
            lemma_tag_nc_here(s, i, kw_no());
        },
        Status::Bad => {
            lemma_tag_nc_fail(s, i, kw_ok(), 0);
            lemma_tag_nc_fail(s, i, kw_no(), 0);
            lemma_tag_nc_here(s, i, kw_bad());
        },
        Status::PreAuth => {
            lemma_tag_nc_fail(s, i, kw_ok(), 0);
            lemma_tag_nc_fail(s, i, kw_no(), 0);
            lemma_tag_nc_fail(s, i, kw_bad(), 0);
            lemma_tag_nc_here(s, i, kw_preauth());
        },
        Status::Bye => {
            lemma_tag_nc_fail(s, i, kw_ok(), 0);
            lemma_tag_nc_fail(s, i, kw_no(), 0);
            lemma_tag_nc_fail(s, i, kw_bad(), 1);
            lemma_tag_nc_here(s, i, kw_bye());
        },
    }
}

// ---------------------------------------------------------- envelope inverse

/// Where each piece of the front half of a serialized envelope stands: the
/// first five fields, each bounded by its separating space.
#[verifier::spinoff_prover]
#[verifier::rlimit(100)]
pub proof fn lemma_env_front_layout(s: Seq<u8>, i: int, e: SpecEnvelope)
    requires
        bytes_at(s, i, crate::wire::ser_env_front(e)),
    ensures
        ({
            let n_d = ser_nstring(e.date);
            let n_s = ser_nstring(e.subject);
            let a_f = ser_opt_addresses(e.from);
            let a_n = ser_opt_addresses(e.sender);
            let a_r = ser_opt_addresses(e.reply_to);
            let o2 = i + n_d.len() + 1;
            let o3 = o2 + n_s.len() + 1;
            let o4 = o3 + a_f.len() + 1;
            let o5 = o4 + a_n.len() + 1;
            &&& crate::wire::ser_env_front(e).len() == n_d.len() + n_s.len() + a_f.len()
                + a_n.len() + a_r.len() + 5
            &&& bytes_at(s, i, n_d) && s[i + n_d.len()] == 32
            &&& bytes_at(s, o2, n_s) && s[o2 + n_s.len()] == 32
            &&& bytes_at(s, o3, a_f) && s[o3 + a_f.len()] == 32
            &&& bytes_at(s, o4, a_n) && s[o4 + a_n.len()] == 32
            &&& bytes_at(s, o5, a_r) && s[o5 + a_r.len()] == 32
        }),
{
    reveal(crate::wire::ser_env_front);
    let w = crate::wire::ser_env_front(e);
    let n_d = ser_nstring(e.date);
    let n_s = ser_nstring(e.subject);
    let a_f = ser_opt_addresses(e.from);
    let a_n = ser_opt_addresses(e.sender);
    let a_r = ser_opt_addresses(e.reply_to);
    let r1 = seq![32u8] + n_s + seq![32u8] + a_f + seq![32u8] + a_n + seq![32u8] + a_r
        + seq![32u8];
    assert(w =~= n_d + r1);
    lemma_bytes_at_concat(s, i, n_d, r1);
    let q1 = i + n_d.len();
    let r2 = n_s + seq![32u8] + a_f + seq![32u8] + a_n + seq![32u8] + a_r + seq![32u8];
    assert(r1 =~= seq![32u8] + r2);
    lemma_bytes_at_concat(s, q1, seq![32u8], r2);
    lemma_bytes_at_index(s, q1, seq![32u8], 0);
    let o2 = q1 + 1;
    let r3 = seq![32u8] + a_f + seq![32u8] + a_n + seq![32u8] + a_r + seq![32u8];
    assert(r2 =~= n_s + r3);
    lemma_bytes_at_concat(s, o2, n_s, r3);
    let q2 = o2 + n_s.len();
    let r4 = a_f + seq![32u8] + a_n + seq![32u8] + a_r + seq![32u8];
    assert(r3 =~= seq![32u8] + r4);
    lemma_bytes_at_concat(s, q2, seq![32u8], r4);
    lemma_bytes_at_index(s, q2, seq![32u8], 0);
    let o3 = q2 + 1;
    let r5 = seq![32u8] + a_n + seq![32u8] + a_r + seq![32u8];
    assert(r4 =~= a_f + r5);
    lemma_bytes_at_concat(s, o3, a_f, r5);
    let q3 = o3 + a_f.len();
    let r6 = a_n + seq![32u8] + a_r + seq![32u8];
    assert(r5 =~= seq![32u8] + r6);
    lemma_bytes_at_concat(s, q3, seq![32u8], r6);
    lemma_bytes_at_index(s, q3, seq![32u8], 0);
    let o4 = q3 + 1;
    let r7 = seq![32u8] + a_r + seq![32u8];
    assert(r6 =~= a_n + r7);
    lemma_bytes_at_concat(s, o4, a_n, r7);
    let q4 = o4 + a_n.len();
    let r8 = a_r + seq![32u8];
    assert(r7 =~= seq![32u8] + r8);
    lemma_bytes_at_concat(s, q4, seq![32u8], r8);
    lemma_bytes_at_index(s, q4, seq![32u8], 0);
    let o5 = q4 + 1;
    lemma_bytes_at_concat(s, o5, a_r, seq![32u8]);
    lemma_bytes_at_index(s, o5 + a_r.len(), seq![32u8], 0);
}

/// Where each piece of the tail half of a serialized envelope stands: the
/// last five fields, their separating spaces, and the closing parenthesis.
#[verifier::spinoff_prover]
#[verifier::rlimit(100)]
pub proof fn lemma_env_tail_layout(s: Seq<u8>, i: int, e: SpecEnvelope)
    requires
        bytes_at(s, i, crate::wire::ser_env_tail(e)),
    ensures
        ({
            let a_t = ser_opt_addresses(e.to);
            let a_c = ser_opt_addresses(e.cc);
            let a_b = ser_opt_addresses(e.bcc);
            let n_i = ser_nstring(e.in_reply_to);
            let n_m = ser_nstring(e.message_id);
            let o2 = i + a_t.len() + 1;
            let o3 = o2 + a_c.len() + 1;
            let o4 = o3 + a_b.len() + 1;
            let o5 = o4 + n_i.len() + 1;
            &&& crate::wire::ser_env_tail(e).len() == a_t.len() + a_c.len() + a_b.len()
                + n_i.len() + n_m.len() + 5
            &&& bytes_at(s, i, a_t) && s[i + a_t.len()] == 32
            &&& bytes_at(s, o2, a_c) && s[o2 + a_c.len()] == 32
            &&& bytes_at(s, o3, a_b) && s[o3 + a_b.len()] == 32
            &&& bytes_at(s, o4, n_i) && s[o4 + n_i.len()] == 32
            &&& bytes_at(s, o5, n_m) && s[o5 + n_m.len()] == 41
        }),
{
    reveal(crate::wire::ser_env_tail);
    let w = crate::wire::ser_env_tail(e);
    let a_t = ser_opt_addresses(e.to);
    let a_c = ser_opt_addresses(e.cc);
    let a_b = ser_opt_addresses(e.bcc);
    let n_i = ser_nstring(e.in_reply_to);
    let n_m = ser_nstring(e.message_id);
    let r1 = seq![32u8] + a_c + seq![32u8] + a_b + seq![32u8] + n_i + seq![32u8] + n_m
        + seq![41u8];
    assert(w =~= a_t + r1);
    lemma_bytes_at_concat(s, i, a_t, r1);
    let q1 = i + a_t.len();
    let r2 = a_c + seq![32u8] + a_b + seq![32u8] + n_i + seq![32u8] + n_m + seq![41u8];
    assert(r1 =~= seq![32u8] + r2);
    lemma_bytes_at_concat(s, q1, seq![32u8], r2);
    lemma_bytes_at_index(s, q1, seq![32u8], 0);
    let o2 = q1 + 1;
    let r3 = seq![32u8] + a_b + seq![32u8] + n_i + seq![32u8] + n_m + seq![41u8];
    assert(r2 =~= a_c + r3);
    lemma_bytes_at_concat(s, o2, a_c, r3);
    let q2 = o2 + a_c.len();
    let r4 = a_b + seq![32u8] + n_i + seq![32u8] + n_m + seq![41u8];
    assert(r3 =~= seq![32u8] + r4);
    lemma_bytes_at_concat(s, q2, seq![32u8], r4);
    lemma_bytes_at_index(s, q2, seq![32u8], 0);
    let o3 = q2 + 1;
    let r5 = seq![32u8] + n_i + seq![32u8] + n_m + seq![41u8];
    assert(r4 =~= a_b + r5);
    lemma_bytes_at_concat(s, o3, a_b, r5);
    let q3 = o3 + a_b.len();
    let r6 = n_i + seq![32u8] + n_m + seq![41u8];
    assert(r5 =~= seq![32u8] + r6);
    lemma_bytes_at_concat(s, q3, seq![32u8], r6);
    lemma_bytes_at_index(s, q3, seq![32u8], 0);
    let o4 = q3 + 1;
    let r7 = seq![32u8] + n_m + seq![41u8];
    assert(r6 =~= n_i + r7);
    lemma_bytes_at_concat(s, o4, n_i, r7);
    let q4 = o4 + n_i.len();
    let r8 = n_m + seq![41u8];
    assert(r7 =~= seq![32u8] + r8);
    lemma_bytes_at_concat(s, q4, seq![32u8], r8);
    lemma_bytes_at_index(s, q4, seq![32u8], 0);
    let o5 = q4 + 1;
    lemma_bytes_at_concat(s, o5, n_m, seq![41u8]);
    lemma_bytes_at_index(s, o5 + n_m.len(), seq![41u8], 0);
}

/// The last five envelope fields decode from their canonical serialization.
#[verifier::spinoff_prover]
#[verifier::rlimit(100)]
pub proof fn lemma_env_tail_rt(s: Seq<u8>, i: int, e: SpecEnvelope)
    requires
        bytes_at(s, i, crate::wire::ser_env_tail(e)),
        crate::wire::valid_envelope(e),
    ensures
        crate::values::sp_envelope_tail(s, i, e.date, e.subject, e.from, e.sender, e.reply_to)
            == SpecRes::Val(e, i + crate::wire::ser_env_tail(e).len()),
{
    let a_t = ser_opt_addresses(e.to);
    let a_c = ser_opt_addresses(e.cc);
    let a_b = ser_opt_addresses(e.bcc);
    let n_i = ser_nstring(e.in_reply_to);
    let n_m = ser_nstring(e.message_id);
    lemma_env_tail_layout(s, i, e);
    let o2 = i + a_t.len() + 1;
    let o3 = o2 + a_c.len() + 1;
    let o4 = o3 + a_b.len() + 1;
    let o5 = o4 + n_i.len() + 1;
    lemma_opt_addresses_rt(s, i, e.to);
    lemma_byte_tag_here(s, i + a_t.len(), kw_sp());
    lemma_opt_addresses_rt(s, o2, e.cc);
    lemma_byte_tag_here(s, o2 + a_c.len(), kw_sp());
    lemma_opt_addresses_rt(s, o3, e.bcc);
    lemma_byte_tag_here(s, o3 + a_b.len(), kw_sp());
    lemma_nstring_rt(s, o4, e.in_reply_to);
    lemma_byte_tag_here(s, o4 + n_i.len(), kw_sp());
    lemma_nstring_rt(s, o5, e.message_id);
    lemma_byte_tag_here(s, o5 + n_m.len(), kw_rparen());
}

/// Decoding the canonical serialization of a valid envelope body gives the
/// envelope back, field by field, in the fixed wire order.
#[verifier::spinoff_prover]
#[verifier::rlimit(100)]
pub proof fn lemma_envelope_body_rt(s: Seq<u8>, i: int, e: SpecEnvelope)
    requires
        bytes_at(s, i, crate::wire::ser_envelope_body(e)),
        crate::wire::valid_envelope(e),
    ensures
        crate::values::sp_envelope_body(s, i) == SpecRes::Val(
            e,
            i + crate::wire::ser_envelope_body(e).len(),
        ),
{
    let n_d = ser_nstring(e.date);
    let n_s = ser_nstring(e.subject);
    let a_f = ser_opt_addresses(e.from);
    let a_n = ser_opt_addresses(e.sender);
    let a_r = ser_opt_addresses(e.reply_to);
    lemma_bytes_at_concat(s, i, crate::wire::ser_env_front(e), crate::wire::ser_env_tail(e));
    lemma_env_front_layout(s, i, e);
    let o2 = i + n_d.len() + 1;
    let o3 = o2 + n_s.len() + 1;
    let o4 = o3 + a_f.len() + 1;
    let o5 = o4 + a_n.len() + 1;
    lemma_nstring_rt(s, i, e.date);
    lemma_byte_tag_here(s, i + n_d.len(), kw_sp());
    lemma_nstring_rt(s, o2, e.subject);
    lemma_byte_tag_here(s, o2 + n_s.len(), kw_sp());
    lemma_opt_addresses_rt(s, o3, e.from);
    lemma_byte_tag_here(s, o3 + a_f.len(), kw_sp());
    lemma_opt_addresses_rt(s, o4, e.sender);
    lemma_byte_tag_here(s, o4 + a_n.len(), kw_sp());
    lemma_opt_addresses_rt(s, o5, e.reply_to);
    lemma_byte_tag_here(s, o5 + a_r.len(), kw_sp());
    lemma_env_tail_rt(s, i + crate::wire::ser_env_front(e).len(), e);
}

// ------------------------------------------------- tagged completion inverse

/// Input that does not open with `*` is no untagged response.
pub proof fn lemma_untagged_fail(s: Seq<u8>, i: int)
    requires
        0 <= i < s.len(),
        s[i] != 42,
    ensures
        crate::response::sp_response_data(s, i) == SpecRes::<SpecResponse>::Fail,
{
    lemma_tag_fail(s, i, kw_untagged(), 0);
}

/// Code-free text bounded by a CR decodes to no code and, when non-empty,
/// to itself.
pub proof fn lemma_plain_resp_text_rt(s: Seq<u8>, i: int, txt: Option<Seq<u8>>)
    requires
        txt matches Some(x) ==> x.len() > 0 && valid_text(x) && code_free(x),
        ({
            let x = match txt {
                None => Seq::<u8>::empty(),
                Some(x) => x,
            };
            bytes_at(s, i, x) && i + x.len() < s.len() && s[i + x.len()] == 13
        }),
    ensures
        ({
            let x = match txt {
                None => Seq::<u8>::empty(),
                Some(x) => x,
            };
            sp_resp_text(s, i) == SpecRes::Val(
                (None::<crate::types::SpecResponseCode>, txt),
                i + x.len(),
            )
        }),
{
    let x = match txt {
        None => Seq::<u8>::empty(),
        Some(x) => x,
    };
    let e = i + x.len();
    if x.len() > 0 {
        lemma_bytes_at_index(s, i, x, 0);
        assert(s[i] == x[0] && x[0] != 91);
    }
    lemma_tag_fail(s, i, crate::kw::kw_lbracket(), 0);
    assert forall|k: int| i <= k < e implies !is_crlf_byte(s[k]) by {
        lemma_bytes_at_index(s, i, x, k - i);
    }
    lemma_scan_text_region(s, i, e);
    assert(s.subrange(i, e) == x);
    assert(sp_text(s, i) == SpecRes::Val(x, e));
}

/// Decoding a canonical tagged completion line without a response code
/// gives `Done` with the tag, the status, no code and the text; the line is
/// consumed whole. The untagged shape is refuted first: a valid tag cannot
/// begin with `*`.
pub proof fn lemma_done_line_rt(s: Seq<u8>, i: int, t: Seq<u8>, st: Status, txt: Option<Seq<u8>>)
    requires
        bytes_at(s, i, ser_done_line(t, st, txt)),
        valid_tag(t),
        txt matches Some(x) ==> x.len() > 0 && valid_text(x) && code_free(x),
    ensures
        sp_response(s, i) == SpecRes::Val(
            SpecResponse::Done(t, st, None, txt),
            i + ser_done_line(t, st, txt).len(),
        ),
{
    lemma_done_line_layout(s, i, t, st, txt);
    lemma_bytes_at_index(s, i, t, 0);
    assert(s[i] == t[0]);
    assert(is_tag_char(t[0]));
    lemma_untagged_fail(s, i);
    lemma_tagged_line_rt(s, i, t, st, txt);
}

/// Assembling a tagged completion from its already-decoded pieces.
pub proof fn lemma_tagged_assemble(
    s: Seq<u8>,
    i: int,
    t: Seq<u8>,
    st: Status,
    txt: Option<Seq<u8>>,
    e1: int,
    e2: int,
    e3: int,
    e4: int,
    e5: int,
    e6: int,
)
    requires
        sp_tag_token(s, i) == SpecRes::Val(t, e1),
        crate::kw::sp_kw_sp(s, e1) == SpecRes::<()>::Val((), e2),
        sp_status(s, e2) == SpecRes::Val(st, e3),
        crate::kw::sp_kw_sp(s, e3) == SpecRes::<()>::Val((), e4),
        sp_resp_text(s, e4) == SpecRes::Val((None::<crate::types::SpecResponseCode>, txt), e5),
        crate::kw::sp_kw_crlf(s, e5) == SpecRes::<()>::Val((), e6),
    ensures
        crate::response::sp_response_tagged(s, i) == SpecRes::Val(
            SpecResponse::Done(t, st, None, txt),
            e6,
        ),
{
}

/// Where each piece of a canonical tagged completion line stands.
pub proof fn lemma_done_line_layout(s: Seq<u8>, i: int, t: Seq<u8>, st: Status, txt: Option<Seq<u8>>)
    requires
        bytes_at(s, i, ser_done_line(t, st, txt)),
    ensures
        ({
            let x = match txt {
                None => Seq::<u8>::empty(),
                Some(x) => x,
            };
            &&& ser_done_line(t, st, txt).len() == t.len() + ser_status(st).len() + x.len() + 4
            &&& bytes_at(s, i, t)
            &&& s[i + t.len()] == 32
            &&& bytes_at(s, i + t.len() + 1, ser_status(st))
            &&& s[i + t.len() + 1 + ser_status(st).len()] == 32
            &&& bytes_at(s, i + t.len() + 2 + ser_status(st).len(), x)
            &&& bytes_at(s, i + t.len() + 2 + ser_status(st).len() + x.len(), kw_crlf())
        }),
{
    reveal(crate::wire::ser_done_line);
    let w = ser_done_line(t, st, txt);
    let x = match txt {
        None => Seq::<u8>::empty(),
        Some(x) => x,
    };
    let stw = ser_status(st);
    let r1 = seq![32u8] + stw + seq![32u8] + x + seq![13u8, 10u8];
    assert(w =~= t + r1);
    lemma_bytes_at_concat(s, i, t, r1);
    let e1 = i + t.len();
    let r2 = stw + seq![32u8] + x + seq![13u8, 10u8];
    assert(r1 =~= seq![32u8] + r2);
    lemma_bytes_at_concat(s, e1, seq![32u8], r2);
    lemma_bytes_at_index(s, e1, seq![32u8], 0);
    let e2 = e1 + 1;
    let r3 = seq![32u8] + x + seq![13u8, 10u8];
    assert(r2 =~= stw + r3);
    lemma_bytes_at_concat(s, e2, stw, r3);
    let e3 = e2 + stw.len();
    let r4 = x + seq![13u8, 10u8];
    assert(r3 =~= seq![32u8] + r4);
    lemma_bytes_at_concat(s, e3, seq![32u8], r4);
    lemma_bytes_at_index(s, e3, seq![32u8], 0);
    let e4 = e3 + 1;
    lemma_bytes_at_concat(s, e4, x, seq![13u8, 10u8]);
    assert(seq![13u8, 10u8] =~= kw_crlf());
}

/// The tagged-completion rule alone decodes a canonical code-free line.
#[verifier::spinoff_prover]
#[verifier::rlimit(100)]
pub proof fn lemma_tagged_line_rt(s: Seq<u8>, i: int, t: Seq<u8>, st: Status, txt: Option<Seq<u8>>)
    requires
        bytes_at(s, i, ser_done_line(t, st, txt)),
        valid_tag(t),
        txt matches Some(x) ==> x.len() > 0 && valid_text(x) && code_free(x),
    ensures
        crate::response::sp_response_tagged(s, i) == SpecRes::Val(
            SpecResponse::Done(t, st, None, txt),
            i + ser_done_line(t, st, txt).len(),
        ),
{
    let x = match txt {
        None => Seq::<u8>::empty(),
        Some(x) => x,
    };
    let stw = ser_status(st);
    lemma_done_line_layout(s, i, t, st, txt);
    let e1 = i + t.len();
    let e2 = e1 + 1;
    let e3 = e2 + stw.len();
    let e4 = e3 + 1;
    let e5 = e4 + x.len();

    // the tag token: a run of tag bytes bounded by the following space
    assert forall|k: int| i <= k < e1 implies is_tag_char(s[k]) by {
        lemma_bytes_at_index(s, i, t, k - i);
    }
    lemma_scan_tag_region(s, i, e1);
    assert(s.subrange(i, e1) == t);
    assert(sp_tag_token(s, i) == SpecRes::Val(t, e1));

    // the spaces and the status word
    lemma_byte_tag_here(s, e1, kw_sp());
    lemma_status_rt(s, e2, st);
    lemma_byte_tag_here(s, e3, kw_sp());

    // the response text: no code opens it, and it runs to the CR
    lemma_bytes_at_index(s, e5, kw_crlf(), 0);
    lemma_plain_resp_text_rt(s, e4, txt);

    // the closing CRLF
    lemma_tag_here(s, e5, kw_crlf());

    lemma_tagged_assemble(s, i, t, st, txt, e1, e2, e3, e4, e5, e5 + 2);
}

// ------------------------------------------------------------ number inverse

/// Decimal digits are digits, and there is at least one of them.
pub proof fn lemma_dec_digits(n: nat)
    ensures
        dec(n).len() >= 1,
        forall|k: int| 0 <= k < dec(n).len() ==> is_digit_byte(#[trigger] dec(n)[k]),
    decreases n,
{
    if n >= 10 {
        lemma_dec_digits(n / 10);
    }
}

/// The value of the decimal digits of `n` is `n`.
pub proof fn lemma_dec_val(s: Seq<u8>, i: int, n: nat)
    requires
        bytes_at(s, i, dec(n)),
    ensures
        crate::tokens::sp_digits_val(s, i, i + dec(n).len()) == n,
    decreases n,
{
    if n < 10 {
        lemma_bytes_at_index(s, i, dec(n), 0);
        assert(crate::tokens::sp_digits_val(s, i, i) == 0);
    } else {
        lemma_bytes_at_concat(s, i, dec(n / 10), seq![(48 + n % 10) as u8]);
        lemma_dec_val(s, i, n / 10);
        let e = i + dec(n).len();
        lemma_bytes_at_index(s, i, dec(n), dec(n).len() - 1);
        assert(s[e - 1] == (48 + n % 10) as u8);
        assert((n / 10) * 10 + n % 10 == n) by (nonlinear_arith);
    }
}

/// A run of digits bounded by a non-digit is scanned exactly to its end.
pub proof fn lemma_scan_digits_region(s: Seq<u8>, i: int, e: int)
    requires
        0 <= i <= e < s.len(),
        forall|k: int| i <= k < e ==> is_digit_byte(s[k]),
        !is_digit_byte(s[e]),
    ensures
        crate::tokens::sp_scan_digits(s, i) == e,
    decreases e - i,
{
    if i < e {
        lemma_scan_digits_region(s, i + 1, e);
    }
}

/// The decimal digits of a 32-bit number, bounded by a non-digit, decode to
/// that number.
pub proof fn lemma_number_rt(s: Seq<u8>, i: int, n: u32)
    requires
        bytes_at(s, i, dec(n as nat)),
        i + dec(n as nat).len() < s.len(),
        !is_digit_byte(s[i + dec(n as nat).len()]),
    ensures
        crate::tokens::sp_number(s, i) == SpecRes::Val(n, i + dec(n as nat).len()),
{
    let e = i + dec(n as nat).len();
    lemma_dec_digits(n as nat);
    assert forall|k: int| i <= k < e implies is_digit_byte(s[k]) by {
        lemma_bytes_at_index(s, i, dec(n as nat), k - i);
    }
    lemma_scan_digits_region(s, i, e);
    lemma_dec_val(s, i, n as nat);
}

/// No status keyword begins with a byte whose upper-case image is none of
/// `O`, `N`, `B`, `P`.
pub proof fn lemma_status_fail(s: Seq<u8>, i: int)
    requires
        0 <= i < s.len(),
        crate::chars::spec_upper(s[i]) != 79,
        crate::chars::spec_upper(s[i]) != 78,
        crate::chars::spec_upper(s[i]) != 66,
        crate::chars::spec_upper(s[i]) != 80,
    ensures
        sp_status(s, i) == SpecRes::<Status>::Fail,
{
    lemma_tag_nc_fail(s, i, kw_ok(), 0);
    lemma_tag_nc_fail(s, i, kw_no(), 0);
    lemma_tag_nc_fail(s, i, kw_bad(), 0);
    lemma_tag_nc_fail(s, i, kw_preauth(), 0);
    lemma_tag_nc_fail(s, i, kw_bye(), 0);
}

/// Assembling an untagged response that the mailbox-state alternative
/// decodes, after the condition alternative failed.
pub proof fn lemma_mailbox_assemble(s: Seq<u8>, i: int, resp: SpecResponse, j: int, k: int)
    requires
        crate::kw::sp_kw_untagged(s, i) == SpecRes::<()>::Val((), j),
        crate::response::sp_resp_cond(s, j) == SpecRes::<SpecResponse>::Fail,
        crate::response::sp_mailbox_data(s, j) == SpecRes::Val(resp, k),
        crate::kw::sp_kw_crlf(s, k) == SpecRes::<()>::Val((), k + 2),
    ensures
        sp_response(s, i) == SpecRes::Val(resp, k + 2),
{
}

/// Assembling an untagged response that the message-expunge alternative
/// decodes, after the condition and mailbox-state alternatives failed.
pub proof fn lemma_expunge_assemble(s: Seq<u8>, i: int, resp: SpecResponse, j: int, k: int)
    requires
        crate::kw::sp_kw_untagged(s, i) == SpecRes::<()>::Val((), j),
        crate::response::sp_resp_cond(s, j) == SpecRes::<SpecResponse>::Fail,
        crate::response::sp_mailbox_data(s, j) == SpecRes::<SpecResponse>::Fail,
        crate::response::sp_message_expunge(s, j) == SpecRes::Val(resp, k),
        crate::kw::sp_kw_crlf(s, k) == SpecRes::<()>::Val((), k + 2),
    ensures
        sp_response(s, i) == SpecRes::Val(resp, k + 2),
{
}

/// Decoding a canonical EXISTS line gives the message count back.
#[verifier::spinoff_prover]
#[verifier::rlimit(100)]
pub proof fn lemma_exists_line_rt(s: Seq<u8>, i: int, n: u32)
    requires
        bytes_at(s, i, crate::wire::ser_exists_line(n)),
    ensures
        sp_response(s, i) == SpecRes::Val(
            SpecResponse::MailboxData(crate::types::SpecMailboxDatum::Exists(n)),
            i + crate::wire::ser_exists_line(n).len(),
        ),
{
    let d = dec(n as nat);
    let w = crate::wire::ser_exists_line(n);
    let r1 = d + crate::kw::kw_exists() + seq![13u8, 10u8];
    assert(w =~= kw_untagged() + r1);
    lemma_bytes_at_concat(s, i, kw_untagged(), r1);
    lemma_tag_here(s, i, kw_untagged());
    let j = i + 2;
    let r2 = crate::kw::kw_exists() + seq![13u8, 10u8];
    assert(r1 =~= d + r2);
    lemma_bytes_at_concat(s, j, d, r2);
    lemma_dec_digits(n as nat);
    lemma_bytes_at_index(s, j, d, 0);
    lemma_status_fail(s, j);
    lemma_tag_fail(s, j, crate::kw::kw_flags_sp(), 0);
    let k = j + d.len();
    lemma_bytes_at_index(s, k, r2, 0);
    lemma_number_rt(s, j, n);
    lemma_bytes_at_concat(s, k, crate::kw::kw_exists(), seq![13u8, 10u8]);
    lemma_tag_here(s, k, crate::kw::kw_exists());
    let m = k + 7;
    assert(seq![13u8, 10u8] =~= kw_crlf());
    lemma_tag_here(s, m, kw_crlf());
    lemma_mailbox_assemble(
        s,
        i,
        SpecResponse::MailboxData(crate::types::SpecMailboxDatum::Exists(n)),
        j,
        m,
    );
}

/// Decoding a canonical EXPUNGE line gives the sequence number back.
#[verifier::spinoff_prover]
#[verifier::rlimit(100)]
pub proof fn lemma_expunge_line_rt(s: Seq<u8>, i: int, n: u32)
    requires
        bytes_at(s, i, crate::wire::ser_expunge_line(n)),
    ensures
        sp_response(s, i) == SpecRes::Val(
            SpecResponse::Expunge(n),
            i + crate::wire::ser_expunge_line(n).len(),
        ),
{
    let d = dec(n as nat);
    let w = crate::wire::ser_expunge_line(n);
    let r1 = d + crate::kw::kw_expunge() + seq![13u8, 10u8];
    assert(w =~= kw_untagged() + r1);
    lemma_bytes_at_concat(s, i, kw_untagged(), r1);
    lemma_tag_here(s, i, kw_untagged());
    let j = i + 2;
    let r2 = crate::kw::kw_expunge() + seq![13u8, 10u8];
    assert(r1 =~= d + r2);
    lemma_bytes_at_concat(s, j, d, r2);
    lemma_dec_digits(n as nat);
    lemma_bytes_at_index(s, j, d, 0);
    lemma_status_fail(s, j);
    lemma_tag_fail(s, j, crate::kw::kw_flags_sp(), 0);
    let k = j + d.len();
    lemma_bytes_at_index(s, k, r2, 0);
    lemma_number_rt(s, j, n);
    // ` EXPUNGE` refutes ` EXISTS` at its fourth byte and ` RECENT` at its
    // second
    lemma_bytes_at_concat(s, k, crate::kw::kw_expunge(), seq![13u8, 10u8]);
    lemma_bytes_at_index(s, k, crate::kw::kw_expunge(), 3);
    lemma_tag_fail(s, k, crate::kw::kw_exists(), 3);
    lemma_bytes_at_index(s, k, crate::kw::kw_expunge(), 1);
    lemma_tag_fail(s, k, crate::kw::kw_recent(), 1);
    lemma_tag_here(s, k, crate::kw::kw_expunge());
    let m = k + 8;
    assert(seq![13u8, 10u8] =~= kw_crlf());
    lemma_tag_here(s, m, kw_crlf());
    lemma_expunge_assemble(s, i, SpecResponse::Expunge(n), j, m);
}

// ------------------------------------------ untagged condition inverse

/// Where each piece of a canonical untagged condition line stands.
pub proof fn lemma_data_line_layout(s: Seq<u8>, i: int, st: Status, txt: Option<Seq<u8>>)
    requires
        bytes_at(s, i, crate::wire::ser_data_line(st, txt)),
    ensures
        ({
            let x = match txt {
                None => Seq::<u8>::empty(),
                Some(x) => x,
            };
            &&& crate::wire::ser_data_line(st, txt).len() == ser_status(st).len() + x.len() + 5
            &&& bytes_at(s, i, kw_untagged())
            &&& bytes_at(s, i + 2, ser_status(st))
            &&& s[i + 2 + ser_status(st).len()] == 32
            &&& bytes_at(s, i + 3 + ser_status(st).len(), x)
            &&& bytes_at(s, i + 3 + ser_status(st).len() + x.len(), kw_crlf())
        }),
{
    reveal(crate::wire::ser_data_line);
    let x = match txt {
        None => Seq::<u8>::empty(),
        Some(x) => x,
    };
    let stw = ser_status(st);
    let r1 = stw + seq![32u8] + x + seq![13u8, 10u8];
    assert(crate::wire::ser_data_line(st, txt) =~= kw_untagged() + r1);
    lemma_bytes_at_concat(s, i, kw_untagged(), r1);
    let e1 = i + 2;
    let r2 = seq![32u8] + x + seq![13u8, 10u8];
    assert(r1 =~= stw + r2);
    lemma_bytes_at_concat(s, e1, stw, r2);
    let e2 = e1 + stw.len();
    let r3 = x + seq![13u8, 10u8];
    assert(r2 =~= seq![32u8] + r3);
    lemma_bytes_at_concat(s, e2, seq![32u8], r3);
    lemma_bytes_at_index(s, e2, seq![32u8], 0);
    lemma_bytes_at_concat(s, e2 + 1, x, seq![13u8, 10u8]);
    assert(seq![13u8, 10u8] =~= kw_crlf());
}

/// Assembling an untagged condition response from its decoded pieces; the
/// condition shape is the first alternative tried after `* `, so nothing
/// needs to be refuted.
pub proof fn lemma_data_assemble(
    s: Seq<u8>,
    i: int,
    st: Status,
    txt: Option<Seq<u8>>,
    e1: int,
    e2: int,
    e3: int,
    e4: int,
)
    requires
        crate::kw::sp_kw_untagged(s, i) == SpecRes::<()>::Val((), e1),
        sp_status(s, e1) == SpecRes::Val(st, e2),
        crate::kw::sp_kw_sp(s, e2) == SpecRes::<()>::Val((), e3),
        sp_resp_text(s, e3) == SpecRes::Val((None::<crate::types::SpecResponseCode>, txt), e4),
        crate::kw::sp_kw_crlf(s, e4) == SpecRes::<()>::Val((), e4 + 2),
    ensures
        sp_response(s, i) == SpecRes::Val(SpecResponse::Data(st, None, txt), e4 + 2),
{
}

/// Decoding a canonical untagged condition line without a response code
/// gives `Data` with the status, no code and the text; the line is consumed
/// whole.
#[verifier::spinoff_prover]
#[verifier::rlimit(100)]
pub proof fn lemma_data_line_rt(s: Seq<u8>, i: int, st: Status, txt: Option<Seq<u8>>)
    requires
        bytes_at(s, i, crate::wire::ser_data_line(st, txt)),
        txt matches Some(x) ==> x.len() > 0 && valid_text(x) && code_free(x),
    ensures
        sp_response(s, i) == SpecRes::Val(
            SpecResponse::Data(st, None, txt),
            i + crate::wire::ser_data_line(st, txt).len(),
        ),
{
    let x = match txt {
        None => Seq::<u8>::empty(),
        Some(x) => x,
    };
    let stw = ser_status(st);
    lemma_data_line_layout(s, i, st, txt);
    let e1 = i + 2;
    let e2 = e1 + stw.len();
    let e3 = e2 + 1;
    let e4 = e3 + x.len();
    lemma_tag_here(s, i, kw_untagged());
    lemma_status_rt(s, e1, st);
    lemma_byte_tag_here(s, e2, kw_sp());
    lemma_bytes_at_index(s, e4, kw_crlf(), 0);
    lemma_plain_resp_text_rt(s, e3, txt);
    lemma_tag_here(s, e4, kw_crlf());
    lemma_data_assemble(s, i, st, txt, e1, e2, e3, e4);
}

// ------------------------------------------------------------- public laws

/// Law: any untagged condition line `* STATUS SP text CRLF` with non-empty,
/// code-free text decodes to `Data(STATUS, None, Some(text))`, consuming
/// the whole line.
pub proof fn law_untagged_condition(st: Status, x: Seq<u8>)
    requires
        x.len() > 0,
        valid_text(x),
        code_free(x),
    ensures
        sp_response(crate::wire::ser_data_line(st, Some(x)), 0) == SpecRes::Val(
            SpecResponse::Data(st, None, Some(x)),
            crate::wire::ser_data_line(st, Some(x)).len() as int,
        ),
{
    let s = crate::wire::ser_data_line(st, Some(x));
    assert(s.subrange(0, s.len() as int) =~= s);
    lemma_data_line_rt(s, 0, st, Some(x));
}

/// Law: any tagged completion line `TAG SP STATUS SP text CRLF` with
/// non-empty, code-free text decodes to `Done(TAG, STATUS, None,
/// Some(text))`, consuming the whole line.
pub proof fn law_tagged_completion(t: Seq<u8>, st: Status, x: Seq<u8>)
    requires
        valid_tag(t),
        x.len() > 0,
        valid_text(x),
        code_free(x),
    ensures
        sp_response(ser_done_line(t, st, Some(x)), 0) == SpecRes::Val(
            SpecResponse::Done(t, st, None, Some(x)),
            ser_done_line(t, st, Some(x)).len() as int,
        ),
{
    let s = ser_done_line(t, st, Some(x));
    assert(s.subrange(0, s.len() as int) =~= s);
    lemma_done_line_rt(s, 0, t, st, Some(x));
}

/// Law: decoding the canonical serialization of any valid envelope — one
/// whose present address lists are non-empty — yields that envelope back
/// and consumes the serialization whole.
pub proof fn law_envelope_round_trip(e: SpecEnvelope)
    requires
        crate::wire::valid_envelope(e),
    ensures
        crate::values::sp_envelope_body(ser_envelope_body(e), 0) == SpecRes::Val(
            e,
            ser_envelope_body(e).len() as int,
        ),
{
    let s = ser_envelope_body(e);
    assert(s.subrange(0, s.len() as int) =~= s);
    lemma_envelope_body_rt(s, 0, e);
}

/// Law: field order is positional, not named — exchanging the from and
/// sender content between two otherwise identical serialized envelopes
/// decodes to envelopes that are unequal whenever those fields differ.
pub proof fn law_envelope_field_order(e: SpecEnvelope)
    requires
        crate::wire::valid_envelope(e),
        e.from != e.sender,
    ensures
        crate::values::sp_envelope_body(ser_envelope_body(e), 0) == SpecRes::Val(
            e,
            ser_envelope_body(e).len() as int,
        ),
        crate::values::sp_envelope_body(ser_envelope_body(swap_from_sender(e)), 0) == SpecRes::Val(
            swap_from_sender(e),
            ser_envelope_body(swap_from_sender(e)).len() as int,
        ),
        swap_from_sender(e) != e,
{
    law_envelope_round_trip(e);
    law_envelope_round_trip(swap_from_sender(e));
    assert(swap_from_sender(e).from != e.from);
}

/// Law: a canonical EXISTS line decodes to the mailbox message count, and a
/// canonical EXPUNGE line to the expunged sequence number, for any 32-bit
/// value; each consumes its line whole.
pub proof fn law_count_lines_round_trip(n: u32)
    ensures
        sp_response(crate::wire::ser_exists_line(n), 0) == SpecRes::Val(
            SpecResponse::MailboxData(crate::types::SpecMailboxDatum::Exists(n)),
            crate::wire::ser_exists_line(n).len() as int,
        ),
        sp_response(crate::wire::ser_expunge_line(n), 0) == SpecRes::Val(
            SpecResponse::Expunge(n),
            crate::wire::ser_expunge_line(n).len() as int,
        ),
{
    let s1 = crate::wire::ser_exists_line(n);
    assert(s1.subrange(0, s1.len() as int) =~= s1);
    lemma_exists_line_rt(s1, 0, n);
    let s2 = crate::wire::ser_expunge_line(n);
    assert(s2.subrange(0, s2.len() as int) =~= s2);
    lemma_expunge_line_rt(s2, 0, n);
}

/// Law: decoding the canonical serialization of any address — `NIL` for
/// each absent field, a quoted string for each present one — yields that
/// address back and consumes the serialization whole.
pub proof fn law_address_round_trip(a: SpecAddress)
    ensures
        sp_address(ser_address(a), 0) == SpecRes::Val(a, ser_address(a).len() as int),
{
    let s = ser_address(a);
    assert(s.subrange(0, s.len() as int) =~= s);
    lemma_address_rt(s, 0, a);
}

} // verus!
