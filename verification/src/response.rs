//! The response assembler: status keywords, the tagged and untagged
//! top-level shapes, and the public entry point [`parse_response`].

use vstd::prelude::*;

use crate::kw::sp_kw_bad;
use crate::kw::sp_kw_bye;
use crate::kw::sp_kw_capability;
use crate::kw::sp_kw_crlf;
use crate::kw::sp_kw_exists;
use crate::kw::sp_kw_expunge;
use crate::kw::sp_kw_fetch;
use crate::kw::sp_kw_flags_sp;
use crate::kw::sp_kw_no;
use crate::kw::sp_kw_ok;
use crate::kw::sp_kw_preauth;
use crate::kw::sp_kw_recent;
use crate::kw::sp_kw_sp;
use crate::kw::sp_kw_untagged;
use crate::kw::tag_bad;
use crate::kw::tag_bye;
use crate::kw::tag_capability;
use crate::kw::tag_crlf;
use crate::kw::tag_exists;
use crate::kw::tag_expunge;
use crate::kw::tag_fetch;
use crate::kw::tag_flags_sp;
use crate::kw::tag_no;
use crate::kw::tag_ok;
use crate::kw::tag_preauth;
use crate::kw::tag_recent;
use crate::kw::tag_sp;
use crate::kw::tag_untagged;
use crate::tokens::copy_range;
use crate::tokens::number;
use crate::tokens::scan_tag;
use crate::tokens::sp_atom;
use crate::tokens::sp_number;
use crate::tokens::sp_scan_tag;
use crate::types::MailboxDatum;
use crate::types::Parsed;
use crate::types::ParseResult;
use crate::types::RequestId;
use crate::types::Response;
use crate::types::SpecMailboxDatum;
use crate::types::SpecRes;
use crate::types::SpecResponse;
use crate::types::Status;
use crate::values::flag_list;
use crate::values::msg_att_list;
use crate::values::resp_text;
use crate::values::sp_flag_list;
use crate::values::sp_msg_att_list;
use crate::values::sp_resp_text;

verus! {

broadcast use crate::types::lemma_bytes_deep_view;

// ------------------------------------------------------------------ status

/// A status keyword, matched without regard to ASCII case, in the order
/// OK, NO, BAD, PREAUTH, BYE.
pub open spec fn sp_status(s: Seq<u8>, i: int) -> SpecRes<Status> {
    match sp_kw_ok(s, i) {
        SpecRes::Val(_, j) => SpecRes::Val(Status::Okay, j),
        SpecRes::More(need) => SpecRes::More(need),
        SpecRes::Fail => match sp_kw_no(s, i) {
            SpecRes::Val(_, j) => SpecRes::Val(Status::No, j),
            SpecRes::More(need) => SpecRes::More(need),
            SpecRes::Fail => match sp_kw_bad(s, i) {
                SpecRes::Val(_, j) => SpecRes::Val(Status::Bad, j),
                SpecRes::More(need) => SpecRes::More(need),
                SpecRes::Fail => match sp_kw_preauth(s, i) {
                    SpecRes::Val(_, j) => SpecRes::Val(Status::PreAuth, j),
                    SpecRes::More(need) => SpecRes::More(need),
                    SpecRes::Fail => match sp_kw_bye(s, i) {
                        SpecRes::Val(_, j) => SpecRes::Val(Status::Bye, j),
                        SpecRes::More(need) => SpecRes::More(need),
                        SpecRes::Fail => SpecRes::Fail,
                    },
                },
            },
        },
    }
}

/// Decodes a status keyword at `i`.
pub fn status(s: &[u8], i: usize) -> (r: Parsed<Status>)
    requires
        i <= s@.len(),
    ensures
        r.deep_view() == sp_status(s@, i as int),
        r matches Parsed::Val(_, j) ==> i < j <= s@.len(),
{
    match tag_ok(s, i) {
        Parsed::Val(_, j) => { return Parsed::Val(Status::Okay, j); },
        Parsed::More(need) => { return Parsed::More(need); },
        Parsed::Fail => {},
    }
    match tag_no(s, i) {
        Parsed::Val(_, j) => { return Parsed::Val(Status::No, j); },
        Parsed::More(need) => { return Parsed::More(need); },
        Parsed::Fail => {},
    }
    match tag_bad(s, i) {
        Parsed::Val(_, j) => { return Parsed::Val(Status::Bad, j); },
        Parsed::More(need) => { return Parsed::More(need); },
        Parsed::Fail => {},
    }
    match tag_preauth(s, i) {
        Parsed::Val(_, j) => { return Parsed::Val(Status::PreAuth, j); },
        Parsed::More(need) => { return Parsed::More(need); },
        Parsed::Fail => {},
    }
    match tag_bye(s, i) {
        Parsed::Val(_, j) => Parsed::Val(Status::Bye, j),
        Parsed::More(need) => Parsed::More(need),
        Parsed::Fail => Parsed::Fail,
    }
}

// --------------------------------------------------------------- untagged

/// An untagged condition line after `* `: status, space, response text.
pub open spec fn sp_resp_cond(s: Seq<u8>, i: int) -> SpecRes<SpecResponse> {
    match sp_status(s, i) {
        SpecRes::Val(st, j) => match sp_kw_sp(s, j) {
            SpecRes::Val(_, k) => match sp_resp_text(s, k) {
                SpecRes::Val((code, txt), m) => SpecRes::Val(SpecResponse::Data(st, code, txt), m),
                SpecRes::More(need) => SpecRes::More(need),
                SpecRes::Fail => SpecRes::Fail,
            },
            SpecRes::More(need) => SpecRes::More(need),
            SpecRes::Fail => SpecRes::Fail,
        },
        SpecRes::More(need) => SpecRes::More(need),
        SpecRes::Fail => SpecRes::Fail,
    }
}

/// Decodes an untagged condition line at `i`.
pub fn resp_cond(s: &[u8], i: usize) -> (r: Parsed<Response>)
    requires
        i <= s@.len(),
    ensures
        r.deep_view() == sp_resp_cond(s@, i as int),
        r matches Parsed::Val(_, j) ==> i < j <= s@.len(),
{
    let (st, p) = match status(s, i) {
        Parsed::Val(v, j) => (v, j),
        Parsed::More(need) => { return Parsed::More(need); },
        Parsed::Fail => { return Parsed::Fail; },
    };
    let q = match tag_sp(s, p) {
        Parsed::Val(_, j) => j,
        Parsed::More(need) => { return Parsed::More(need); },
        Parsed::Fail => { return Parsed::Fail; },
    };
    match resp_text(s, q) {
        Parsed::Val((code, txt), m) => Parsed::Val(Response::Data(st, code, txt), m),
        Parsed::More(need) => Parsed::More(need),
        Parsed::Fail => Parsed::Fail,
    }
}

/// Mailbox state after `* `: a FLAGS list, or a count followed by EXISTS
/// or RECENT.
pub open spec fn sp_mailbox_data(s: Seq<u8>, i: int) -> SpecRes<SpecResponse> {
    match sp_kw_flags_sp(s, i) {
        SpecRes::Val(_, j) => match sp_flag_list(s, j) {
            SpecRes::Val(fs, k) => SpecRes::Val(
                SpecResponse::MailboxData(SpecMailboxDatum::Flags(fs)),
                k,
            ),
            SpecRes::More(need) => SpecRes::More(need),
            SpecRes::Fail => SpecRes::Fail,
        },
        SpecRes::More(need) => SpecRes::More(need),
        SpecRes::Fail => match sp_number(s, i) {
            SpecRes::Val(n, j) => match sp_kw_exists(s, j) {
                SpecRes::Val(_, k) => SpecRes::Val(
                    SpecResponse::MailboxData(SpecMailboxDatum::Exists(n)),
                    k,
                ),
                SpecRes::More(need) => SpecRes::More(need),
                SpecRes::Fail => match sp_kw_recent(s, j) {
                    SpecRes::Val(_, k) => SpecRes::Val(
                        SpecResponse::MailboxData(SpecMailboxDatum::Recent(n)),
                        k,
                    ),
                    SpecRes::More(need) => SpecRes::More(need),
                    SpecRes::Fail => SpecRes::Fail,
                },
            },
            SpecRes::More(need) => SpecRes::More(need),
            SpecRes::Fail => SpecRes::Fail,
        },
    }
}

/// Decodes mailbox state at `i`.
pub fn mailbox_data(s: &[u8], i: usize) -> (r: Parsed<Response>)
    requires
        i <= s@.len(),
    ensures
        r.deep_view() == sp_mailbox_data(s@, i as int),
        r matches Parsed::Val(_, j) ==> i < j <= s@.len(),
{
    match tag_flags_sp(s, i) {
        Parsed::Val(_, j) => {
            return match flag_list(s, j) {
                Parsed::Val(fs, k) => Parsed::Val(
                    Response::MailboxData(MailboxDatum::Flags(fs)),
                    k,
                ),
                Parsed::More(need) => Parsed::More(need),
                Parsed::Fail => Parsed::Fail,
            };
        },
        Parsed::More(need) => { return Parsed::More(need); },
        Parsed::Fail => {},
    }
    let (n, p) = match number(s, i) {
        Parsed::Val(n, j) => (n, j),
        Parsed::More(need) => { return Parsed::More(need); },
        Parsed::Fail => { return Parsed::Fail; },
    };
    match tag_exists(s, p) {
        Parsed::Val(_, k) => {
            return Parsed::Val(Response::MailboxData(MailboxDatum::Exists(n)), k);
        },
        Parsed::More(need) => { return Parsed::More(need); },
        Parsed::Fail => {},
    }
    match tag_recent(s, p) {
        Parsed::Val(_, k) => Parsed::Val(Response::MailboxData(MailboxDatum::Recent(n)), k),
        Parsed::More(need) => Parsed::More(need),
        Parsed::Fail => Parsed::Fail,
    }
}

/// A message-expunge item after `* `: a sequence number then ` EXPUNGE`.
pub open spec fn sp_message_expunge(s: Seq<u8>, i: int) -> SpecRes<SpecResponse> {
    match sp_number(s, i) {
        SpecRes::Val(n, j) => match sp_kw_expunge(s, j) {
            SpecRes::Val(_, k) => SpecRes::Val(SpecResponse::Expunge(n), k),
            SpecRes::More(need) => SpecRes::More(need),
            SpecRes::Fail => SpecRes::Fail,
        },
        SpecRes::More(need) => SpecRes::More(need),
        SpecRes::Fail => SpecRes::Fail,
    }
}

/// Decodes a message-expunge item at `i`.
pub fn message_expunge(s: &[u8], i: usize) -> (r: Parsed<Response>)
    requires
        i <= s@.len(),
    ensures
        r.deep_view() == sp_message_expunge(s@, i as int),
        r matches Parsed::Val(_, j) ==> i < j <= s@.len(),
{
    let (n, p) = match number(s, i) {
        Parsed::Val(n, j) => (n, j),
        Parsed::More(need) => { return Parsed::More(need); },
        Parsed::Fail => { return Parsed::Fail; },
    };
    match tag_expunge(s, p) {
        Parsed::Val(_, k) => Parsed::Val(Response::Expunge(n), k),
        Parsed::More(need) => Parsed::More(need),
        Parsed::Fail => Parsed::Fail,
    }
}

/// A message-fetch item after `* `: a sequence number, ` FETCH `, then a
/// parenthesized attribute list.
pub open spec fn sp_message_fetch(s: Seq<u8>, i: int) -> SpecRes<SpecResponse> {
    match sp_number(s, i) {
        SpecRes::Val(n, j) => match sp_kw_fetch(s, j) {
            SpecRes::Val(_, k) => match sp_msg_att_list(s, k) {
                SpecRes::Val(atts, m) => SpecRes::Val(SpecResponse::Fetch(n, atts), m),
                SpecRes::More(need) => SpecRes::More(need),
                SpecRes::Fail => SpecRes::Fail,
            },
            SpecRes::More(need) => SpecRes::More(need),
            SpecRes::Fail => SpecRes::Fail,
        },
        SpecRes::More(need) => SpecRes::More(need),
        SpecRes::Fail => SpecRes::Fail,
    }
}

/// Decodes a message-fetch item at `i`.
pub fn message_fetch(s: &[u8], i: usize) -> (r: Parsed<Response>)
    requires
        i <= s@.len(),
    ensures
        r.deep_view() == sp_message_fetch(s@, i as int),
        r matches Parsed::Val(_, j) ==> i < j <= s@.len(),
{
    let (n, p) = match number(s, i) {
        Parsed::Val(n, j) => (n, j),
        Parsed::More(need) => { return Parsed::More(need); },
        Parsed::Fail => { return Parsed::Fail; },
    };
    let q = match tag_fetch(s, p) {
        Parsed::Val(_, j) => j,
        Parsed::More(need) => { return Parsed::More(need); },
        Parsed::Fail => { return Parsed::Fail; },
    };
    match msg_att_list(s, q) {
        Parsed::Val(atts, m) => Parsed::Val(Response::Fetch(n, atts), m),
        Parsed::More(need) => Parsed::More(need),
        Parsed::Fail => Parsed::Fail,
    }
}

/// One capability name: a space, then a maximal non-empty run of atom bytes.
pub open spec fn sp_capability(s: Seq<u8>, i: int) -> SpecRes<Seq<u8>> {
    match sp_kw_sp(s, i) {
        SpecRes::Val(_, j) => sp_atom(s, j),
        SpecRes::More(need) => SpecRes::More(need),
        SpecRes::Fail => SpecRes::Fail,
    }
}

/// Decodes one capability name at `i`.
pub fn capability(s: &[u8], i: usize) -> (r: Parsed<Vec<u8>>)
    requires
        i <= s@.len(),
    ensures
        r.deep_view() == sp_capability(s@, i as int),
        r matches Parsed::Val(_, j) ==> i < j <= s@.len(),
{
    match tag_sp(s, i) {
        Parsed::Val(_, j) => crate::tokens::atom(s, j),
        Parsed::More(need) => Parsed::More(need),
        Parsed::Fail => Parsed::Fail,
    }
}

/// Capability names after the first.
pub open spec fn sp_caps_rest(s: Seq<u8>, i: int, acc: Seq<Seq<u8>>) -> SpecRes<Seq<Seq<u8>>>
    decreases s.len() - i,
{
    match sp_capability(s, i) {
        SpecRes::Val(c, j) => if i < j <= s.len() {
            sp_caps_rest(s, j, acc.push(c))
        } else {
            SpecRes::Fail
        },
        SpecRes::More(need) => SpecRes::More(need),
        SpecRes::Fail => SpecRes::Val(acc, i),
    }
}

/// Decodes the capability names after the first, extending `acc`.
pub fn caps_rest(s: &[u8], i: usize, acc: Vec<Vec<u8>>) -> (r: Parsed<Vec<Vec<u8>>>)
    requires
        i <= s@.len(),
    ensures
        r.deep_view() == sp_caps_rest(s@, i as int, acc.deep_view()),
        r matches Parsed::Val(_, j) ==> i <= j <= s@.len(),
    decreases s@.len() - i,
{
    match capability(s, i) {
        Parsed::Val(c, j) => {
            let ghost acc0 = acc.deep_view();
            let ghost cv = c.deep_view();
            let mut acc = acc;
            acc.push(c);
            proof {
                assert(acc.deep_view() =~= acc0.push(cv));
            }
            caps_rest(s, j, acc)
        },
        Parsed::More(need) => Parsed::More(need),
        Parsed::Fail => Parsed::Val(acc, i),
    }
}

/// A capability listing after `* `: the word CAPABILITY, then one or more
/// space-separated capability names.
pub open spec fn sp_capability_data(s: Seq<u8>, i: int) -> SpecRes<SpecResponse> {
    match sp_kw_capability(s, i) {
        SpecRes::Val(_, j) => match sp_capability(s, j) {
            SpecRes::Val(c, k) => match sp_caps_rest(s, k, seq![c]) {
                SpecRes::Val(caps, m) => SpecRes::Val(SpecResponse::Capabilities(caps), m),
                SpecRes::More(need) => SpecRes::More(need),
                SpecRes::Fail => SpecRes::Fail,
            },
            SpecRes::More(need) => SpecRes::More(need),
            SpecRes::Fail => SpecRes::Fail,
        },
        SpecRes::More(need) => SpecRes::More(need),
        SpecRes::Fail => SpecRes::Fail,
    }
}

/// Decodes a capability listing at `i`.
pub fn capability_data(s: &[u8], i: usize) -> (r: Parsed<Response>)
    requires
        i <= s@.len(),
    ensures
        r.deep_view() == sp_capability_data(s@, i as int),
        r matches Parsed::Val(_, j) ==> i < j <= s@.len(),
{
    let p = match tag_capability(s, i) {
        Parsed::Val(_, j) => j,
        Parsed::More(need) => { return Parsed::More(need); },
        Parsed::Fail => { return Parsed::Fail; },
    };
    let (c, q) = match capability(s, p) {
        Parsed::Val(c, k) => (c, k),
        Parsed::More(need) => { return Parsed::More(need); },
        Parsed::Fail => { return Parsed::Fail; },
    };
    let ghost cv = c.deep_view();
    let mut acc: Vec<Vec<u8>> = Vec::new();
    acc.push(c);
    proof {
        assert(acc.deep_view() =~= seq![cv]);
    }
    match caps_rest(s, q, acc) {
        Parsed::Val(caps, m) => Parsed::Val(Response::Capabilities(caps), m),
        Parsed::More(need) => Parsed::More(need),
        Parsed::Fail => Parsed::Fail,
    }
}

/// An untagged response: `* `, then a condition line, mailbox state, a
/// message-expunge item, a message-fetch item or a capability listing,
/// tried in that order, then CRLF. A failed alternative consumes nothing,
/// so the next one starts from the same position.
pub open spec fn sp_response_data(s: Seq<u8>, i: int) -> SpecRes<SpecResponse> {
    match sp_kw_untagged(s, i) {
        SpecRes::Val(_, j) => match sp_untagged_alts(s, j) {
            SpecRes::Val(resp, k) => match sp_kw_crlf(s, k) {
                SpecRes::Val(_, m) => SpecRes::Val(resp, m),
                SpecRes::More(need) => SpecRes::More(need),
                SpecRes::Fail => SpecRes::Fail,
            },
            SpecRes::More(need) => SpecRes::More(need),
            SpecRes::Fail => SpecRes::Fail,
        },
        SpecRes::More(need) => SpecRes::More(need),
        SpecRes::Fail => SpecRes::Fail,
    }
}

/// The alternatives of an untagged response, after the `* `.
pub open spec fn sp_untagged_alts(s: Seq<u8>, i: int) -> SpecRes<SpecResponse> {
    match sp_resp_cond(s, i) {
        SpecRes::Val(resp, j) => SpecRes::Val(resp, j),
        SpecRes::More(need) => SpecRes::More(need),
        SpecRes::Fail => match sp_mailbox_data(s, i) {
            SpecRes::Val(resp, j) => SpecRes::Val(resp, j),
            SpecRes::More(need) => SpecRes::More(need),
            SpecRes::Fail => match sp_message_expunge(s, i) {
                SpecRes::Val(resp, j) => SpecRes::Val(resp, j),
                SpecRes::More(need) => SpecRes::More(need),
                SpecRes::Fail => match sp_message_fetch(s, i) {
                    SpecRes::Val(resp, j) => SpecRes::Val(resp, j),
                    SpecRes::More(need) => SpecRes::More(need),
                    SpecRes::Fail => sp_capability_data(s, i),
                },
            },
        },
    }
}

/// Decodes the untagged alternatives at `i`.
pub fn untagged_alts(s: &[u8], i: usize) -> (r: Parsed<Response>)
    requires
        i <= s@.len(),
    ensures
        r.deep_view() == sp_untagged_alts(s@, i as int),
        r matches Parsed::Val(_, j) ==> i < j <= s@.len(),
{
    match resp_cond(s, i) {
        Parsed::Val(resp, j) => { return Parsed::Val(resp, j); },
        Parsed::More(need) => { return Parsed::More(need); },
        Parsed::Fail => {},
    }
    match mailbox_data(s, i) {
        Parsed::Val(resp, j) => { return Parsed::Val(resp, j); },
        Parsed::More(need) => { return Parsed::More(need); },
        Parsed::Fail => {},
    }
    match message_expunge(s, i) {
        Parsed::Val(resp, j) => { return Parsed::Val(resp, j); },
        Parsed::More(need) => { return Parsed::More(need); },
        Parsed::Fail => {},
    }
    match message_fetch(s, i) {
        Parsed::Val(resp, j) => { return Parsed::Val(resp, j); },
        Parsed::More(need) => { return Parsed::More(need); },
        Parsed::Fail => {},
    }
    capability_data(s, i)
}

/// Decodes an untagged response at `i`.
pub fn response_data(s: &[u8], i: usize) -> (r: Parsed<Response>)
    requires
        i <= s@.len(),
    ensures
        r.deep_view() == sp_response_data(s@, i as int),
        r matches Parsed::Val(_, j) ==> i < j <= s@.len(),
{
    let p = match tag_untagged(s, i) {
        Parsed::Val(_, j) => j,
        Parsed::More(need) => { return Parsed::More(need); },
        Parsed::Fail => { return Parsed::Fail; },
    };
    let (resp, q) = match untagged_alts(s, p) {
        Parsed::Val(resp, k) => (resp, k),
        Parsed::More(need) => { return Parsed::More(need); },
        Parsed::Fail => { return Parsed::Fail; },
    };
    match tag_crlf(s, q) {
        Parsed::Val(_, m) => Parsed::Val(resp, m),
        Parsed::More(need) => Parsed::More(need),
        Parsed::Fail => Parsed::Fail,
    }
}

// ------------------------------------------------------------------ tagged

/// A request tag: a maximal non-empty run of tag bytes. A run that touches
/// the end of the buffer could still grow, so it asks for more input.
pub open spec fn sp_tag_token(s: Seq<u8>, i: int) -> SpecRes<Seq<u8>> {
    let e = sp_scan_tag(s, i);
    if e >= s.len() {
        SpecRes::More(None)
    } else if e == i {
        SpecRes::Fail
    } else {
        SpecRes::Val(s.subrange(i, e), e)
    }
}

/// Decodes a request tag at `i`.
pub fn tag_token(s: &[u8], i: usize) -> (r: Parsed<Vec<u8>>)
    requires
        i <= s@.len(),
    ensures
        r.deep_view() == sp_tag_token(s@, i as int),
        r matches Parsed::Val(_, j) ==> i < j <= s@.len(),
{
    let e = scan_tag(s, i);
    if e == s.len() {
        Parsed::More(None)
    } else if e == i {
        Parsed::Fail
    } else {
        Parsed::Val(copy_range(s, i, e), e)
    }
}

/// A tagged completion response: tag, space, status, space, response text,
/// CRLF.
pub open spec fn sp_response_tagged(s: Seq<u8>, i: int) -> SpecRes<SpecResponse> {
    match sp_tag_token(s, i) {
        SpecRes::Val(t, j) => match sp_kw_sp(s, j) {
            SpecRes::Val(_, k) => match sp_status(s, k) {
                SpecRes::Val(st, m) => match sp_kw_sp(s, m) {
                    SpecRes::Val(_, p) => match sp_resp_text(s, p) {
                        SpecRes::Val((code, txt), q) => match sp_kw_crlf(s, q) {
                            SpecRes::Val(_, w) => SpecRes::Val(
                                SpecResponse::Done(t, st, code, txt),
                                w,
                            ),
                            SpecRes::More(need) => SpecRes::More(need),
                            SpecRes::Fail => SpecRes::Fail,
                        },
                        SpecRes::More(need) => SpecRes::More(need),
                        SpecRes::Fail => SpecRes::Fail,
                    },
                    SpecRes::More(need) => SpecRes::More(need),
                    SpecRes::Fail => SpecRes::Fail,
                },
                SpecRes::More(need) => SpecRes::More(need),
                SpecRes::Fail => SpecRes::Fail,
            },
            SpecRes::More(need) => SpecRes::More(need),
            SpecRes::Fail => SpecRes::Fail,
        },
        SpecRes::More(need) => SpecRes::More(need),
        SpecRes::Fail => SpecRes::Fail,
    }
}

/// Decodes a tagged completion response at `i`.
pub fn response_tagged(s: &[u8], i: usize) -> (r: Parsed<Response>)
    requires
        i <= s@.len(),
    ensures
        r.deep_view() == sp_response_tagged(s@, i as int),
        r matches Parsed::Val(_, j) ==> i < j <= s@.len(),
{
    let (t, p1) = match tag_token(s, i) {
        Parsed::Val(v, j) => (v, j),
        Parsed::More(need) => { return Parsed::More(need); },
        Parsed::Fail => { return Parsed::Fail; },
    };
    let p2 = match tag_sp(s, p1) {
        Parsed::Val(_, j) => j,
        Parsed::More(need) => { return Parsed::More(need); },
        Parsed::Fail => { return Parsed::Fail; },
    };
    let (st, p3) = match status(s, p2) {
        Parsed::Val(v, j) => (v, j),
        Parsed::More(need) => { return Parsed::More(need); },
        Parsed::Fail => { return Parsed::Fail; },
    };
    let p4 = match tag_sp(s, p3) {
        Parsed::Val(_, j) => j,
        Parsed::More(need) => { return Parsed::More(need); },
        Parsed::Fail => { return Parsed::Fail; },
    };
    let (code, txt, p5) = match resp_text(s, p4) {
        Parsed::Val((code, txt), j) => (code, txt, j),
        Parsed::More(need) => { return Parsed::More(need); },
        Parsed::Fail => { return Parsed::Fail; },
    };
    match tag_crlf(s, p5) {
        Parsed::Val(_, w) => Parsed::Val(Response::Done(RequestId(t), st, code, txt), w),
        Parsed::More(need) => Parsed::More(need),
        Parsed::Fail => Parsed::Fail,
    }
}

// --------------------------------------------------------------- top level

/// One complete response unit: an untagged response, else a tagged
/// completion. The two shapes are told apart by their first bytes — an
/// untagged response opens with `* `, whose `*` can begin no request tag.
pub open spec fn sp_response(s: Seq<u8>, i: int) -> SpecRes<SpecResponse> {
    match sp_response_data(s, i) {
        SpecRes::Val(resp, j) => SpecRes::Val(resp, j),
        SpecRes::More(need) => SpecRes::More(need),
        SpecRes::Fail => sp_response_tagged(s, i),
    }
}

/// Decodes one response unit at `i`.
pub fn response(s: &[u8], i: usize) -> (r: Parsed<Response>)
    requires
        i <= s@.len(),
    ensures
        r.deep_view() == sp_response(s@, i as int),
        r matches Parsed::Val(_, j) ==> i < j <= s@.len(),
{
    match response_data(s, i) {
        Parsed::Val(resp, j) => Parsed::Val(resp, j),
        Parsed::More(need) => Parsed::More(need),
        Parsed::Fail => response_tagged(s, i),
    }
}

/// Decodes one server response from the head of `msg`.
///
/// On success the result carries the decoded response and the exact number
/// of bytes consumed — everything up to and including the terminating CRLF,
/// with any literal payloads counted by their announced length. When the
/// buffer holds a prefix that further bytes could still complete, the
/// outcome asks for more input instead, with the least number of missing
/// bytes when that is known (inside a literal); the caller then retries
/// with a longer buffer holding the same bytes plus new ones. When no
/// extension of the buffer can form a valid response, the outcome is a
/// syntax error.
pub fn parse_response(msg: &[u8]) -> (r: ParseResult)
    ensures
        r.deep_view() == sp_response(msg@, 0),
        r matches ParseResult::Success(_, n) ==> 0 < n <= msg@.len(),
{
    match response(msg, 0) {
        Parsed::Val(resp, j) => ParseResult::Success(resp, j),
        Parsed::More(need) => ParseResult::Incomplete(need),
        Parsed::Fail => ParseResult::SyntaxError,
    }
}

} // verus!
