//! Canonical serialization of decoded values, as specification functions,
//! and the validity conditions under which a value has a wire form at all.
//! The round-trip laws in `laws` state that decoding a canonical
//! serialization gives the original value back.

use vstd::prelude::*;

use crate::chars::is_crlf_byte;
use crate::chars::is_quoted_special;
use crate::chars::is_tag_char;
use crate::kw::kw_bad;
use crate::kw::kw_bye;
use crate::kw::kw_nil;
use crate::kw::kw_no;
use crate::kw::kw_ok;
use crate::kw::kw_preauth;
use crate::types::SpecAddress;
use crate::types::SpecEnvelope;
use crate::types::Status;

verus! {

/// Escaped content of a quoted string: `"` and `\` get a `\` before them,
/// every other byte stands as itself.
pub open spec fn esc(c: Seq<u8>) -> Seq<u8>
    decreases c.len(),
{
    if c.len() == 0 {
        Seq::empty()
    } else if is_quoted_special(c[0]) {
        seq![92u8, c[0]] + esc(c.subrange(1, c.len() as int))
    } else {
        seq![c[0]] + esc(c.subrange(1, c.len() as int))
    }
}

/// Canonical wire form of a quoted string with content `c`.
pub open spec fn ser_quoted(c: Seq<u8>) -> Seq<u8> {
    seq![34u8] + esc(c) + seq![34u8]
}

/// Canonical wire form of a nullable string: `NIL`, or a quoted string.
pub open spec fn ser_nstring(o: Option<Seq<u8>>) -> Seq<u8> {
    match o {
        None => kw_nil(),
        Some(c) => ser_quoted(c),
    }
}

/// Canonical wire form of an address.
pub open spec fn ser_address(a: SpecAddress) -> Seq<u8> {
    seq![40u8] + ser_nstring(a.name) + seq![32u8] + ser_nstring(a.adl) + seq![32u8] + ser_nstring(
        a.mailbox,
    ) + seq![32u8] + ser_nstring(a.host) + seq![41u8]
}

/// Canonical wire form of the addresses of a group, side by side.
pub open spec fn ser_addresses(addrs: Seq<SpecAddress>) -> Seq<u8>
    decreases addrs.len(),
{
    if addrs.len() == 0 {
        Seq::empty()
    } else {
        ser_address(addrs[0]) + ser_addresses(addrs.subrange(1, addrs.len() as int))
    }
}

/// Canonical wire form of a nullable address list: `NIL`, or a
/// parenthesized group of the addresses. The group form requires at least
/// one address; an empty group has no wire form.
pub open spec fn ser_opt_addresses(o: Option<Seq<SpecAddress>>) -> Seq<u8> {
    match o {
        None => kw_nil(),
        Some(addrs) => seq![40u8] + ser_addresses(addrs) + seq![41u8],
    }
}

/// Canonical wire form of a status word: the upper-case keyword.
pub open spec fn ser_status(st: Status) -> Seq<u8> {
    match st {
        Status::Okay => kw_ok(),
        Status::No => kw_no(),
        Status::Bad => kw_bad(),
        Status::PreAuth => kw_preauth(),
        Status::Bye => kw_bye(),
    }
}

/// A request tag is wire-valid when it is non-empty and holds tag bytes
/// only.
pub open spec fn valid_tag(t: Seq<u8>) -> bool {
    t.len() > 0 && forall|k: int| 0 <= k < t.len() ==> is_tag_char(t[k])
}

/// Response text is wire-valid when it holds no CR or LF; it is code-free
/// when it does not open with `[`, which would start a response code.
pub open spec fn valid_text(x: Seq<u8>) -> bool {
    forall|k: int| 0 <= k < x.len() ==> !is_crlf_byte(x[k])
}

/// The text opens with a byte that cannot begin a bracketed response code.
pub open spec fn code_free(x: Seq<u8>) -> bool {
    x.len() > 0 ==> x[0] != 91
}

/// A nullable-string field has a wire form for any content; a present
/// address list needs at least one address, each of whose fields is
/// unconstrained. This is the condition under which `ser_opt_addresses`
/// yields a decodable group.
pub open spec fn valid_opt_addresses(o: Option<Seq<SpecAddress>>) -> bool {
    match o {
        None => true,
        Some(addrs) => addrs.len() > 0,
    }
}

/// Canonical wire form of the first five envelope fields, each followed by
/// its separating space: date, subject, from, sender, reply-to.
#[verifier::opaque]
pub open spec fn ser_env_front(e: SpecEnvelope) -> Seq<u8> {
    ser_nstring(e.date) + seq![32u8] + ser_nstring(e.subject) + seq![32u8] + ser_opt_addresses(
        e.from,
    ) + seq![32u8] + ser_opt_addresses(e.sender) + seq![32u8] + ser_opt_addresses(e.reply_to)
        + seq![32u8]
}

/// Canonical wire form of the last five envelope fields and the closing
/// parenthesis: to, cc, bcc, in-reply-to, message-id.
#[verifier::opaque]
pub open spec fn ser_env_tail(e: SpecEnvelope) -> Seq<u8> {
    ser_opt_addresses(e.to) + seq![32u8] + ser_opt_addresses(e.cc) + seq![32u8]
        + ser_opt_addresses(e.bcc) + seq![32u8] + ser_nstring(e.in_reply_to) + seq![32u8]
        + ser_nstring(e.message_id) + seq![41u8]
}

/// Canonical wire form of an envelope body: what stands between
/// `ENVELOPE (` and the end of the attribute.
pub open spec fn ser_envelope_body(e: SpecEnvelope) -> Seq<u8> {
    ser_env_front(e) + ser_env_tail(e)
}

/// Every address list of the envelope has a wire form.
pub open spec fn valid_envelope(e: SpecEnvelope) -> bool {
    valid_opt_addresses(e.from) && valid_opt_addresses(e.sender) && valid_opt_addresses(e.reply_to)
        && valid_opt_addresses(e.to) && valid_opt_addresses(e.cc) && valid_opt_addresses(e.bcc)
}

/// The same envelope with the from and sender fields exchanged.
pub open spec fn swap_from_sender(e: SpecEnvelope) -> SpecEnvelope {
    SpecEnvelope {
        date: e.date,
        subject: e.subject,
        from: e.sender,
        sender: e.from,
        reply_to: e.reply_to,
        to: e.to,
        cc: e.cc,
        bcc: e.bcc,
        in_reply_to: e.in_reply_to,
        message_id: e.message_id,
    }
}

/// Decimal digits of `n`, most significant first.
pub open spec fn dec(n: nat) -> Seq<u8>
    decreases n,
{
    if n < 10 {
        seq![(48 + n) as u8]
    } else {
        dec(n / 10) + seq![(48 + n % 10) as u8]
    }
}

/// Canonical wire form of a message-expunge response.
pub open spec fn ser_expunge_line(n: u32) -> Seq<u8> {
    crate::kw::kw_untagged() + dec(n as nat) + crate::kw::kw_expunge() + seq![13u8, 10u8]
}

/// Canonical wire form of a message-count (EXISTS) response.
pub open spec fn ser_exists_line(n: u32) -> Seq<u8> {
    crate::kw::kw_untagged() + dec(n as nat) + crate::kw::kw_exists() + seq![13u8, 10u8]
}

/// Canonical wire form of an untagged condition line without a response
/// code: `* `, status, space, the text when present, CRLF.
#[verifier::opaque]
pub open spec fn ser_data_line(st: Status, txt: Option<Seq<u8>>) -> Seq<u8> {
    crate::kw::kw_untagged() + ser_status(st) + seq![32u8] + (match txt {
        None => Seq::<u8>::empty(),
        Some(x) => x,
    }) + seq![13u8, 10u8]
}

/// Canonical wire form of a tagged completion line without a response
/// code: tag, space, status, space, the text when present, CRLF.
#[verifier::opaque]
pub open spec fn ser_done_line(t: Seq<u8>, st: Status, txt: Option<Seq<u8>>) -> Seq<u8> {
    t + seq![32u8] + ser_status(st) + seq![32u8] + (match txt {
        None => Seq::<u8>::empty(),
        Some(x) => x,
    }) + seq![13u8, 10u8]
}

} // verus!
