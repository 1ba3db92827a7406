//! Semantic values: flag lists, addresses, envelopes, message attributes,
//! bracketed response codes and response text.

use vstd::prelude::*;

use crate::kw::sp_kw_envelope;
use crate::kw::sp_kw_flags_sp;
use crate::kw::sp_kw_highest_mod_seq;
use crate::kw::sp_kw_internal_date;
use crate::kw::sp_kw_lbracket;
use crate::kw::sp_kw_lparen;
use crate::kw::sp_kw_mod_seq;
use crate::kw::sp_kw_nil;
use crate::kw::sp_kw_permanent_flags;
use crate::kw::sp_kw_rbracket;
use crate::kw::sp_kw_read_only;
use crate::kw::sp_kw_read_write;
use crate::kw::sp_kw_rfc822;
use crate::kw::sp_kw_rfc822_size;
use crate::kw::sp_kw_rparen;
use crate::kw::sp_kw_sp;
use crate::kw::sp_kw_try_create;
use crate::kw::sp_kw_uid;
use crate::kw::sp_kw_uid_next;
use crate::kw::sp_kw_uid_validity;
use crate::kw::tag_envelope;
use crate::kw::tag_flags_sp;
use crate::kw::tag_highest_mod_seq;
use crate::kw::tag_internal_date;
use crate::kw::tag_lbracket;
use crate::kw::tag_lparen;
use crate::kw::tag_mod_seq;
use crate::kw::tag_nil;
use crate::kw::tag_permanent_flags;
use crate::kw::tag_rbracket;
use crate::kw::tag_read_only;
use crate::kw::tag_read_write;
use crate::kw::tag_rfc822;
use crate::kw::tag_rfc822_size;
use crate::kw::tag_rparen;
use crate::kw::tag_sp;
use crate::kw::tag_try_create;
use crate::kw::tag_uid;
use crate::kw::tag_uid_next;
use crate::kw::tag_uid_validity;
use crate::tokens::sp_flag;
use crate::tokens::sp_flag_perm;
use crate::tokens::sp_nstring;
use crate::tokens::sp_number;
use crate::tokens::sp_number_64;
use crate::tokens::sp_text;
use crate::tokens::flag;
use crate::tokens::flag_perm;
use crate::tokens::nstring;
use crate::tokens::number;
use crate::tokens::number_64;
use crate::tokens::text;
use crate::types::Address;
use crate::types::AttributeValue;
use crate::types::Envelope;
use crate::types::Parsed;
use crate::types::ResponseCode;
use crate::types::SpecAddress;
use crate::types::SpecAttributeValue;
use crate::types::SpecEnvelope;
use crate::types::SpecRes;
use crate::types::SpecResponseCode;

verus! {

broadcast use crate::types::lemma_bytes_deep_view;

// -------------------------------------------------------------- flag lists

/// One element of a flag list: an ordinary flag, or additionally the `\*`
/// marker when the list is a PERMANENTFLAGS list (`perm` is set).
pub open spec fn sp_flag_item(s: Seq<u8>, i: int, perm: bool) -> SpecRes<Seq<u8>> {
    if perm {
        sp_flag_perm(s, i)
    } else {
        sp_flag(s, i)
    }
}

/// Decodes one flag-list element at `i`.
pub fn flag_item(s: &[u8], i: usize, perm: bool) -> (r: Parsed<Vec<u8>>)
    requires
        i <= s@.len(),
    ensures
        r.deep_view() == sp_flag_item(s@, i as int, perm),
        r matches Parsed::Val(_, j) ==> i < j <= s@.len(),
{
    if perm {
        flag_perm(s, i)
    } else {
        flag(s, i)
    }
}

/// Flags after the first: repeated `SP flag`, appended to `acc`; the
/// repetition stops just before the first space that is not followed by a
/// flag. The bound check on the element's end never fails, since an element
/// always consumes at least one byte; it bounds the recursion.
pub open spec fn sp_flag_rest(s: Seq<u8>, i: int, acc: Seq<Seq<u8>>, perm: bool) -> SpecRes<
    Seq<Seq<u8>>,
>
    decreases s.len() - i,
{
    match sp_kw_sp(s, i) {
        SpecRes::Val(_, j) => match sp_flag_item(s, j, perm) {
            SpecRes::Val(f, k) => if i < k <= s.len() {
                sp_flag_rest(s, k, acc.push(f), perm)
            } else {
                SpecRes::Fail
            },
            SpecRes::More(need) => SpecRes::More(need),
            SpecRes::Fail => SpecRes::Val(acc, i),
        },
        SpecRes::More(need) => SpecRes::More(need),
        SpecRes::Fail => SpecRes::Val(acc, i),
    }
}

/// Decodes the flags after the first, extending `acc`.
pub fn flag_rest(s: &[u8], i: usize, acc: Vec<Vec<u8>>, perm: bool) -> (r: Parsed<Vec<Vec<u8>>>)
    requires
        i <= s@.len(),
    ensures
        r.deep_view() == sp_flag_rest(s@, i as int, acc.deep_view(), perm),
        r matches Parsed::Val(_, j) ==> i <= j <= s@.len(),
    decreases s@.len() - i,
{
    match tag_sp(s, i) {
        Parsed::Val(_, j) => match flag_item(s, j, perm) {
            Parsed::Val(f, k) => {
                let ghost acc0 = acc.deep_view();
                let ghost fv = f.deep_view();
                let mut acc = acc;
                acc.push(f);
                proof {
                    assert(acc.deep_view() =~= acc0.push(fv));
                }
                flag_rest(s, k, acc, perm)
            },
            Parsed::More(need) => Parsed::More(need),
            Parsed::Fail => Parsed::Val(acc, i),
        },
        Parsed::More(need) => Parsed::More(need),
        Parsed::Fail => Parsed::Val(acc, i),
    }
}

/// Body of a parenthesized flag list, after the `(`: an optional
/// space-separated flag sequence. An empty list is valid.
pub open spec fn sp_flag_list_body(s: Seq<u8>, i: int, perm: bool) -> SpecRes<Seq<Seq<u8>>> {
    match sp_flag_item(s, i, perm) {
        SpecRes::Val(f, j) => sp_flag_rest(s, j, seq![f], perm),
        SpecRes::More(need) => SpecRes::More(need),
        SpecRes::Fail => SpecRes::Val(Seq::empty(), i),
    }
}

/// Decodes the body of a flag list at `i`.
pub fn flag_list_body(s: &[u8], i: usize, perm: bool) -> (r: Parsed<Vec<Vec<u8>>>)
    requires
        i <= s@.len(),
    ensures
        r.deep_view() == sp_flag_list_body(s@, i as int, perm),
        r matches Parsed::Val(_, j) ==> i <= j <= s@.len(),
{
    match flag_item(s, i, perm) {
        Parsed::Val(f, j) => {
            let ghost fv = f.deep_view();
            let mut acc: Vec<Vec<u8>> = Vec::new();
            acc.push(f);
            proof {
                assert(acc.deep_view() =~= seq![fv]);
            }
            flag_rest(s, j, acc, perm)
        },
        Parsed::More(need) => Parsed::More(need),
        Parsed::Fail => {
            let empty: Vec<Vec<u8>> = Vec::new();
            proof {
                assert(empty.deep_view() =~= Seq::<Seq<u8>>::empty());
            }
            Parsed::Val(empty, i)
        },
    }
}

/// A parenthesized flag list: `(`, an optional space-separated flag
/// sequence, `)`. `()` is an empty list, distinct from any non-empty one.
pub open spec fn sp_flag_list(s: Seq<u8>, i: int) -> SpecRes<Seq<Seq<u8>>> {
    match sp_kw_lparen(s, i) {
        SpecRes::Val(_, j) => match sp_flag_list_body(s, j, false) {
            SpecRes::Val(fs, k) => match sp_kw_rparen(s, k) {
                SpecRes::Val(_, m) => SpecRes::Val(fs, m),
                SpecRes::More(need) => SpecRes::More(need),
                SpecRes::Fail => SpecRes::Fail,
            },
            SpecRes::More(need) => SpecRes::More(need),
            SpecRes::Fail => SpecRes::Fail,
        },
        SpecRes::More(need) => SpecRes::More(need),
        SpecRes::Fail => SpecRes::Fail,
    }
}

/// Decodes a parenthesized flag list at `i`.
pub fn flag_list(s: &[u8], i: usize) -> (r: Parsed<Vec<Vec<u8>>>)
    requires
        i <= s@.len(),
    ensures
        r.deep_view() == sp_flag_list(s@, i as int),
        r matches Parsed::Val(_, j) ==> i < j <= s@.len(),
{
    let p = match tag_lparen(s, i) {
        Parsed::Val(_, j) => j,
        Parsed::More(need) => { return Parsed::More(need); },
        Parsed::Fail => { return Parsed::Fail; },
    };
    let (fs, q) = match flag_list_body(s, p, false) {
        Parsed::Val(fs, k) => (fs, k),
        Parsed::More(need) => { return Parsed::More(need); },
        Parsed::Fail => { return Parsed::Fail; },
    };
    match tag_rparen(s, q) {
        Parsed::Val(_, m) => Parsed::Val(fs, m),
        Parsed::More(need) => Parsed::More(need),
        Parsed::Fail => Parsed::Fail,
    }
}

// --------------------------------------------------------------- addresses

/// A parenthesized address: four nullable strings in fixed order (display
/// name, route, mailbox local part, host), separated by single spaces.
pub open spec fn sp_address(s: Seq<u8>, i: int) -> SpecRes<SpecAddress> {
    match sp_kw_lparen(s, i) {
        SpecRes::Val(_, p1) => match sp_nstring(s, p1) {
            SpecRes::Val(name, p2) => match sp_kw_sp(s, p2) {
                SpecRes::Val(_, p3) => match sp_nstring(s, p3) {
                    SpecRes::Val(adl, p4) => match sp_kw_sp(s, p4) {
                        SpecRes::Val(_, p5) => match sp_nstring(s, p5) {
                            SpecRes::Val(mailbox, p6) => match sp_kw_sp(s, p6) {
                                SpecRes::Val(_, p7) => match sp_nstring(s, p7) {
                                    SpecRes::Val(host, p8) => match sp_kw_rparen(s, p8) {
                                        SpecRes::Val(_, p9) => SpecRes::Val(
                                            SpecAddress { name, adl, mailbox, host },
                                            p9,
                                        ),
                                        SpecRes::More(need) => SpecRes::More(need),
                                        SpecRes::Fail => SpecRes::Fail,
                                    },
                                    SpecRes::More(need) => SpecRes::More(need),
                                    SpecRes::Fail => SpecRes::Fail,
                                },
                                SpecRes::More(need) => SpecRes::More(need),
                                SpecRes::Fail => SpecRes::Fail,
                            },
                            SpecRes::More(need) => SpecRes::More(need),
                            SpecRes::Fail => SpecRes::Fail,
                        },
                        SpecRes::More(need) => SpecRes::More(need),
                        SpecRes::Fail => SpecRes::Fail,
                    },
                    SpecRes::More(need) => SpecRes::More(need),
                    SpecRes::Fail => SpecRes::Fail,
                },
                SpecRes::More(need) => SpecRes::More(need),
                SpecRes::Fail => SpecRes::Fail,
            },
            SpecRes::More(need) => SpecRes::More(need),
            SpecRes::Fail => SpecRes::Fail,
        },
        SpecRes::More(need) => SpecRes::More(need),
        SpecRes::Fail => SpecRes::Fail,
    }
}

/// Decodes an address at `i`.
pub fn address(s: &[u8], i: usize) -> (r: Parsed<Address>)
    requires
        i <= s@.len(),
    ensures
        r.deep_view() == sp_address(s@, i as int),
        r matches Parsed::Val(_, j) ==> i < j <= s@.len(),
{
    let p1 = match tag_lparen(s, i) {
        Parsed::Val(_, j) => j,
        Parsed::More(need) => { return Parsed::More(need); },
        Parsed::Fail => { return Parsed::Fail; },
    };
    let (name, p2) = match nstring(s, p1) {
        Parsed::Val(v, j) => (v, j),
        Parsed::More(need) => { return Parsed::More(need); },
        Parsed::Fail => { return Parsed::Fail; },
    };
    let p3 = match tag_sp(s, p2) {
        Parsed::Val(_, j) => j,
        Parsed::More(need) => { return Parsed::More(need); },
        Parsed::Fail => { return Parsed::Fail; },
    };
    let (adl, p4) = match nstring(s, p3) {
        Parsed::Val(v, j) => (v, j),
        Parsed::More(need) => { return Parsed::More(need); },
        Parsed::Fail => { return Parsed::Fail; },
    };
    let p5 = match tag_sp(s, p4) {
        Parsed::Val(_, j) => j,
        Parsed::More(need) => { return Parsed::More(need); },
        Parsed::Fail => { return Parsed::Fail; },
    };
    let (mailbox, p6) = match nstring(s, p5) {
        Parsed::Val(v, j) => (v, j),
        Parsed::More(need) => { return Parsed::More(need); },
        Parsed::Fail => { return Parsed::Fail; },
    };
    let p7 = match tag_sp(s, p6) {
        Parsed::Val(_, j) => j,
        Parsed::More(need) => { return Parsed::More(need); },
        Parsed::Fail => { return Parsed::Fail; },
    };
    let (host, p8) = match nstring(s, p7) {
        Parsed::Val(v, j) => (v, j),
        Parsed::More(need) => { return Parsed::More(need); },
        Parsed::Fail => { return Parsed::Fail; },
    };
    match tag_rparen(s, p8) {
        Parsed::Val(_, p9) => Parsed::Val(Address { name, adl, mailbox, host }, p9),
        Parsed::More(need) => Parsed::More(need),
        Parsed::Fail => Parsed::Fail,
    }
}

/// Addresses after the first inside an address group; they stand side by
/// side with no separator.
pub open spec fn sp_addr_rest(s: Seq<u8>, i: int, acc: Seq<SpecAddress>) -> SpecRes<
    Seq<SpecAddress>,
>
    decreases s.len() - i,
{
    match sp_address(s, i) {
        SpecRes::Val(a, j) => if i < j <= s.len() {
            sp_addr_rest(s, j, acc.push(a))
        } else {
            SpecRes::Fail
        },
        SpecRes::More(need) => SpecRes::More(need),
        SpecRes::Fail => SpecRes::Val(acc, i),
    }
}

/// Decodes the addresses after the first, extending `acc`.
pub fn addr_rest(s: &[u8], i: usize, acc: Vec<Address>) -> (r: Parsed<Vec<Address>>)
    requires
        i <= s@.len(),
    ensures
        r.deep_view() == sp_addr_rest(s@, i as int, acc.deep_view()),
        r matches Parsed::Val(_, j) ==> i <= j <= s@.len(),
    decreases s@.len() - i,
{
    match address(s, i) {
        Parsed::Val(a, j) => {
            let ghost acc0 = acc.deep_view();
            let ghost av = a.deep_view();
            let mut acc = acc;
            acc.push(a);
            proof {
                assert(acc.deep_view() =~= acc0.push(av));
            }
            addr_rest(s, j, acc)
        },
        Parsed::More(need) => Parsed::More(need),
        Parsed::Fail => Parsed::Val(acc, i),
    }
}

/// A nullable address list: the word `NIL` yields absence; otherwise a
/// parenthesized group of one or more adjacent addresses. An explicitly
/// empty group `()` is a syntax error.
pub open spec fn sp_opt_addresses(s: Seq<u8>, i: int) -> SpecRes<Option<Seq<SpecAddress>>> {
    match sp_kw_nil(s, i) {
        SpecRes::Val(_, j) => SpecRes::Val(None, j),
        SpecRes::More(need) => SpecRes::More(need),
        SpecRes::Fail => match sp_kw_lparen(s, i) {
            SpecRes::Val(_, j) => match sp_address(s, j) {
                SpecRes::Val(a, k) => match sp_addr_rest(s, k, seq![a]) {
                    SpecRes::Val(addrs, m) => match sp_kw_rparen(s, m) {
                        SpecRes::Val(_, p) => SpecRes::Val(Some(addrs), p),
                        SpecRes::More(need) => SpecRes::More(need),
                        SpecRes::Fail => SpecRes::Fail,
                    },
                    SpecRes::More(need) => SpecRes::More(need),
                    SpecRes::Fail => SpecRes::Fail,
                },
                SpecRes::More(need) => SpecRes::More(need),
                SpecRes::Fail => SpecRes::Fail,
            },
            SpecRes::More(need) => SpecRes::More(need),
            SpecRes::Fail => SpecRes::Fail,
        },
    }
}

/// Decodes a nullable address list at `i`.
pub fn opt_addresses(s: &[u8], i: usize) -> (r: Parsed<Option<Vec<Address>>>)
    requires
        i <= s@.len(),
    ensures
        r.deep_view() == sp_opt_addresses(s@, i as int),
        r matches Parsed::Val(_, j) ==> i < j <= s@.len(),
{
    match tag_nil(s, i) {
        Parsed::Val(_, j) => { return Parsed::Val(None, j); },
        Parsed::More(need) => { return Parsed::More(need); },
        Parsed::Fail => {},
    }
    let p = match tag_lparen(s, i) {
        Parsed::Val(_, j) => j,
        Parsed::More(need) => { return Parsed::More(need); },
        Parsed::Fail => { return Parsed::Fail; },
    };
    let (a, q) = match address(s, p) {
        Parsed::Val(a, k) => (a, k),
        Parsed::More(need) => { return Parsed::More(need); },
        Parsed::Fail => { return Parsed::Fail; },
    };
    let ghost av = a.deep_view();
    let mut acc: Vec<Address> = Vec::new();
    acc.push(a);
    proof {
        assert(acc.deep_view() =~= seq![av]);
    }
    let (addrs, m) = match addr_rest(s, q, acc) {
        Parsed::Val(v, m) => (v, m),
        Parsed::More(need) => { return Parsed::More(need); },
        Parsed::Fail => { return Parsed::Fail; },
    };
    match tag_rparen(s, m) {
        Parsed::Val(_, p9) => Parsed::Val(Some(addrs), p9),
        Parsed::More(need) => Parsed::More(need),
        Parsed::Fail => Parsed::Fail,
    }
}

// ---------------------------------------------------------------- envelope

/// Body of an `ENVELOPE (...)` attribute, after its opening keyword: nine
/// space-separated fields in fixed order — date, subject, from, sender,
/// reply-to, to, cc, bcc, in-reply-to, message-id — then the closing `)`.
/// The field order is part of the wire contract.
pub open spec fn sp_envelope_body(s: Seq<u8>, i: int) -> SpecRes<SpecEnvelope> {
    match sp_nstring(s, i) {
        SpecRes::Val(date, p1) => match sp_kw_sp(s, p1) {
            SpecRes::Val(_, p2) => match sp_nstring(s, p2) {
                SpecRes::Val(subject, p3) => match sp_kw_sp(s, p3) {
                    SpecRes::Val(_, p4) => match sp_opt_addresses(s, p4) {
                        SpecRes::Val(from, p5) => match sp_kw_sp(s, p5) {
                            SpecRes::Val(_, p6) => match sp_opt_addresses(s, p6) {
                                SpecRes::Val(sender, p7) => match sp_kw_sp(s, p7) {
                                    SpecRes::Val(_, p8) => match sp_opt_addresses(s, p8) {
                                        SpecRes::Val(reply_to, p9) => match sp_kw_sp(s, p9) {
                                            SpecRes::Val(_, p10) => sp_envelope_tail(
                                                s,
                                                p10,
                                                date,
                                                subject,
                                                from,
                                                sender,
                                                reply_to,
                                            ),
                                            SpecRes::More(need) => SpecRes::More(need),
                                            SpecRes::Fail => SpecRes::Fail,
                                        },
                                        SpecRes::More(need) => SpecRes::More(need),
                                        SpecRes::Fail => SpecRes::Fail,
                                    },
                                    SpecRes::More(need) => SpecRes::More(need),
                                    SpecRes::Fail => SpecRes::Fail,
                                },
                                SpecRes::More(need) => SpecRes::More(need),
                                SpecRes::Fail => SpecRes::Fail,
                            },
                            SpecRes::More(need) => SpecRes::More(need),
                            SpecRes::Fail => SpecRes::Fail,
                        },
                        SpecRes::More(need) => SpecRes::More(need),
                        SpecRes::Fail => SpecRes::Fail,
                    },
                    SpecRes::More(need) => SpecRes::More(need),
                    SpecRes::Fail => SpecRes::Fail,
                },
                SpecRes::More(need) => SpecRes::More(need),
                SpecRes::Fail => SpecRes::Fail,
            },
            SpecRes::More(need) => SpecRes::More(need),
            SpecRes::Fail => SpecRes::Fail,
        },
        SpecRes::More(need) => SpecRes::More(need),
        SpecRes::Fail => SpecRes::Fail,
    }
}

/// The last five fields of an envelope: to, cc, bcc, in-reply-to,
/// message-id, then the closing `)`.
pub open spec fn sp_envelope_tail(
    s: Seq<u8>,
    i: int,
    date: Option<Seq<u8>>,
    subject: Option<Seq<u8>>,
    from: Option<Seq<SpecAddress>>,
    sender: Option<Seq<SpecAddress>>,
    reply_to: Option<Seq<SpecAddress>>,
) -> SpecRes<SpecEnvelope> {
    match sp_opt_addresses(s, i) {
        SpecRes::Val(to, p1) => match sp_kw_sp(s, p1) {
            SpecRes::Val(_, p2) => match sp_opt_addresses(s, p2) {
                SpecRes::Val(cc, p3) => match sp_kw_sp(s, p3) {
                    SpecRes::Val(_, p4) => match sp_opt_addresses(s, p4) {
                        SpecRes::Val(bcc, p5) => match sp_kw_sp(s, p5) {
                            SpecRes::Val(_, p6) => match sp_nstring(s, p6) {
                                SpecRes::Val(in_reply_to, p7) => match sp_kw_sp(s, p7) {
                                    SpecRes::Val(_, p8) => match sp_nstring(s, p8) {
                                        SpecRes::Val(message_id, p9) => match sp_kw_rparen(s, p9) {
                                            SpecRes::Val(_, p10) => SpecRes::Val(
                                                SpecEnvelope {
                                                    date,
                                                    subject,
                                                    from,
                                                    sender,
                                                    reply_to,
                                                    to,
                                                    cc,
                                                    bcc,
                                                    in_reply_to,
                                                    message_id,
                                                },
                                                p10,
                                            ),
                                            SpecRes::More(need) => SpecRes::More(need),
                                            SpecRes::Fail => SpecRes::Fail,
                                        },
                                        SpecRes::More(need) => SpecRes::More(need),
                                        SpecRes::Fail => SpecRes::Fail,
                                    },
                                    SpecRes::More(need) => SpecRes::More(need),
                                    SpecRes::Fail => SpecRes::Fail,
                                },
                                SpecRes::More(need) => SpecRes::More(need),
                                SpecRes::Fail => SpecRes::Fail,
                            },
                            SpecRes::More(need) => SpecRes::More(need),
                            SpecRes::Fail => SpecRes::Fail,
                        },
                        SpecRes::More(need) => SpecRes::More(need),
                        SpecRes::Fail => SpecRes::Fail,
                    },
                    SpecRes::More(need) => SpecRes::More(need),
                    SpecRes::Fail => SpecRes::Fail,
                },
                SpecRes::More(need) => SpecRes::More(need),
                SpecRes::Fail => SpecRes::Fail,
            },
            SpecRes::More(need) => SpecRes::More(need),
            SpecRes::Fail => SpecRes::Fail,
        },
        SpecRes::More(need) => SpecRes::More(need),
        SpecRes::Fail => SpecRes::Fail,
    }
}

/// Decodes the body of an envelope at `i`, after the `ENVELOPE (` keyword.
pub fn envelope_body(s: &[u8], i: usize) -> (r: Parsed<Envelope>)
    requires
        i <= s@.len(),
    ensures
        r.deep_view() == sp_envelope_body(s@, i as int),
        r matches Parsed::Val(_, j) ==> i < j <= s@.len(),
{
    let (date, p1) = match nstring(s, i) {
        Parsed::Val(v, j) => (v, j),
        Parsed::More(need) => { return Parsed::More(need); },
        Parsed::Fail => { return Parsed::Fail; },
    };
    let p2 = match tag_sp(s, p1) {
        Parsed::Val(_, j) => j,
        Parsed::More(need) => { return Parsed::More(need); },
        Parsed::Fail => { return Parsed::Fail; },
    };
    let (subject, p3) = match nstring(s, p2) {
        Parsed::Val(v, j) => (v, j),
        Parsed::More(need) => { return Parsed::More(need); },
        Parsed::Fail => { return Parsed::Fail; },
    };
    let p4 = match tag_sp(s, p3) {
        Parsed::Val(_, j) => j,
        Parsed::More(need) => { return Parsed::More(need); },
        Parsed::Fail => { return Parsed::Fail; },
    };
    let (from, p5) = match opt_addresses(s, p4) {
        Parsed::Val(v, j) => (v, j),
        Parsed::More(need) => { return Parsed::More(need); },
        Parsed::Fail => { return Parsed::Fail; },
    };
    let p6 = match tag_sp(s, p5) {
        Parsed::Val(_, j) => j,
        Parsed::More(need) => { return Parsed::More(need); },
        Parsed::Fail => { return Parsed::Fail; },
    };
    let (sender, p7) = match opt_addresses(s, p6) {
        Parsed::Val(v, j) => (v, j),
        Parsed::More(need) => { return Parsed::More(need); },
        Parsed::Fail => { return Parsed::Fail; },
    };
    let p8 = match tag_sp(s, p7) {
        Parsed::Val(_, j) => j,
        Parsed::More(need) => { return Parsed::More(need); },
        Parsed::Fail => { return Parsed::Fail; },
    };
    let (reply_to, p9) = match opt_addresses(s, p8) {
        Parsed::Val(v, j) => (v, j),
        Parsed::More(need) => { return Parsed::More(need); },
        Parsed::Fail => { return Parsed::Fail; },
    };
    let p10 = match tag_sp(s, p9) {
        Parsed::Val(_, j) => j,
        Parsed::More(need) => { return Parsed::More(need); },
        Parsed::Fail => { return Parsed::Fail; },
    };
    let (to, q1) = match opt_addresses(s, p10) {
        Parsed::Val(v, j) => (v, j),
        Parsed::More(need) => { return Parsed::More(need); },
        Parsed::Fail => { return Parsed::Fail; },
    };
    let q2 = match tag_sp(s, q1) {
        Parsed::Val(_, j) => j,
        Parsed::More(need) => { return Parsed::More(need); },
        Parsed::Fail => { return Parsed::Fail; },
    };
    let (cc, q3) = match opt_addresses(s, q2) {
        Parsed::Val(v, j) => (v, j),
        Parsed::More(need) => { return Parsed::More(need); },
        Parsed::Fail => { return Parsed::Fail; },
    };
    let q4 = match tag_sp(s, q3) {
        Parsed::Val(_, j) => j,
        Parsed::More(need) => { return Parsed::More(need); },
        Parsed::Fail => { return Parsed::Fail; },
    };
    let (bcc, q5) = match opt_addresses(s, q4) {
        Parsed::Val(v, j) => (v, j),
        Parsed::More(need) => { return Parsed::More(need); },
        Parsed::Fail => { return Parsed::Fail; },
    };
    let q6 = match tag_sp(s, q5) {
        Parsed::Val(_, j) => j,
        Parsed::More(need) => { return Parsed::More(need); },
        Parsed::Fail => { return Parsed::Fail; },
    };
    let (in_reply_to, q7) = match nstring(s, q6) {
        Parsed::Val(v, j) => (v, j),
        Parsed::More(need) => { return Parsed::More(need); },
        Parsed::Fail => { return Parsed::Fail; },
    };
    let q8 = match tag_sp(s, q7) {
        Parsed::Val(_, j) => j,
        Parsed::More(need) => { return Parsed::More(need); },
        Parsed::Fail => { return Parsed::Fail; },
    };
    let (message_id, q9) = match nstring(s, q8) {
        Parsed::Val(v, j) => (v, j),
        Parsed::More(need) => { return Parsed::More(need); },
        Parsed::Fail => { return Parsed::Fail; },
    };
    match tag_rparen(s, q9) {
        Parsed::Val(_, q10) => Parsed::Val(
            Envelope {
                date,
                subject,
                from,
                sender,
                reply_to,
                to,
                cc,
                bcc,
                in_reply_to,
                message_id,
            },
            q10,
        ),
        Parsed::More(need) => Parsed::More(need),
        Parsed::Fail => Parsed::Fail,
    }
}

// -------------------------------------------------------------- attributes

/// One message attribute of a fetch response, told apart by its keyword.
/// The keywords are prefix-disjoint once their following punctuation is
/// counted, so the order of the alternatives is not significant; an
/// INTERNALDATE value must be present, so `NIL` there is a syntax error.
pub open spec fn sp_msg_att(s: Seq<u8>, i: int) -> SpecRes<SpecAttributeValue> {
    match sp_kw_envelope(s, i) {
        SpecRes::Val(_, j) => match sp_envelope_body(s, j) {
            SpecRes::Val(e, k) => SpecRes::Val(SpecAttributeValue::Envelope(e), k),
            SpecRes::More(need) => SpecRes::More(need),
            SpecRes::Fail => SpecRes::Fail,
        },
        SpecRes::More(need) => SpecRes::More(need),
        SpecRes::Fail => match sp_kw_internal_date(s, i) {
            SpecRes::Val(_, j) => match sp_nstring(s, j) {
                SpecRes::Val(Some(d), k) => SpecRes::Val(SpecAttributeValue::InternalDate(d), k),
                SpecRes::Val(None, _) => SpecRes::Fail,
                SpecRes::More(need) => SpecRes::More(need),
                SpecRes::Fail => SpecRes::Fail,
            },
            SpecRes::More(need) => SpecRes::More(need),
            SpecRes::Fail => match sp_kw_flags_sp(s, i) {
                SpecRes::Val(_, j) => match sp_flag_list(s, j) {
                    SpecRes::Val(fs, k) => SpecRes::Val(SpecAttributeValue::Flags(fs), k),
                    SpecRes::More(need) => SpecRes::More(need),
                    SpecRes::Fail => SpecRes::Fail,
                },
                SpecRes::More(need) => SpecRes::More(need),
                SpecRes::Fail => match sp_kw_mod_seq(s, i) {
                    SpecRes::Val(_, j) => match sp_number_64(s, j) {
                        SpecRes::Val(n, k) => match sp_kw_rparen(s, k) {
                            SpecRes::Val(_, m) => SpecRes::Val(SpecAttributeValue::ModSeq(n), m),
                            SpecRes::More(need) => SpecRes::More(need),
                            SpecRes::Fail => SpecRes::Fail,
                        },
                        SpecRes::More(need) => SpecRes::More(need),
                        SpecRes::Fail => SpecRes::Fail,
                    },
                    SpecRes::More(need) => SpecRes::More(need),
                    SpecRes::Fail => match sp_kw_rfc822(s, i) {
                        SpecRes::Val(_, j) => match sp_nstring(s, j) {
                            SpecRes::Val(o, k) => SpecRes::Val(SpecAttributeValue::Rfc822(o), k),
                            SpecRes::More(need) => SpecRes::More(need),
                            SpecRes::Fail => SpecRes::Fail,
                        },
                        SpecRes::More(need) => SpecRes::More(need),
                        SpecRes::Fail => match sp_kw_rfc822_size(s, i) {
                            SpecRes::Val(_, j) => match sp_number(s, j) {
                                SpecRes::Val(n, k) => SpecRes::Val(
                                    SpecAttributeValue::Rfc822Size(n),
                                    k,
                                ),
                                SpecRes::More(need) => SpecRes::More(need),
                                SpecRes::Fail => SpecRes::Fail,
                            },
                            SpecRes::More(need) => SpecRes::More(need),
                            SpecRes::Fail => match sp_kw_uid(s, i) {
                                SpecRes::Val(_, j) => match sp_number(s, j) {
                                    SpecRes::Val(n, k) => SpecRes::Val(
                                        SpecAttributeValue::Uid(n),
                                        k,
                                    ),
                                    SpecRes::More(need) => SpecRes::More(need),
                                    SpecRes::Fail => SpecRes::Fail,
                                },
                                SpecRes::More(need) => SpecRes::More(need),
                                SpecRes::Fail => SpecRes::Fail,
                            },
                        },
                    },
                },
            },
        },
    }
}

/// Decodes one message attribute at `i`.
pub fn msg_att(s: &[u8], i: usize) -> (r: Parsed<AttributeValue>)
    requires
        i <= s@.len(),
    ensures
        r.deep_view() == sp_msg_att(s@, i as int),
        r matches Parsed::Val(_, j) ==> i < j <= s@.len(),
{
    match tag_envelope(s, i) {
        Parsed::Val(_, j) => {
            return match envelope_body(s, j) {
                Parsed::Val(e, k) => Parsed::Val(AttributeValue::Envelope(e), k),
                Parsed::More(need) => Parsed::More(need),
                Parsed::Fail => Parsed::Fail,
            };
        },
        Parsed::More(need) => { return Parsed::More(need); },
        Parsed::Fail => {},
    }
    match tag_internal_date(s, i) {
        Parsed::Val(_, j) => {
            return match nstring(s, j) {
                Parsed::Val(Some(d), k) => Parsed::Val(AttributeValue::InternalDate(d), k),
                Parsed::Val(None, _) => Parsed::Fail,
                Parsed::More(need) => Parsed::More(need),
                Parsed::Fail => Parsed::Fail,
            };
        },
        Parsed::More(need) => { return Parsed::More(need); },
        Parsed::Fail => {},
    }
    match tag_flags_sp(s, i) {
        Parsed::Val(_, j) => {
            return match flag_list(s, j) {
                Parsed::Val(fs, k) => Parsed::Val(AttributeValue::Flags(fs), k),
                Parsed::More(need) => Parsed::More(need),
                Parsed::Fail => Parsed::Fail,
            };
        },
        Parsed::More(need) => { return Parsed::More(need); },
        Parsed::Fail => {},
    }
    match tag_mod_seq(s, i) {
        Parsed::Val(_, j) => {
            return match number_64(s, j) {
                Parsed::Val(n, k) => match tag_rparen(s, k) {
                    Parsed::Val(_, m) => Parsed::Val(AttributeValue::ModSeq(n), m),
                    Parsed::More(need) => Parsed::More(need),
                    Parsed::Fail => Parsed::Fail,
                },
                Parsed::More(need) => Parsed::More(need),
                Parsed::Fail => Parsed::Fail,
            };
        },
        Parsed::More(need) => { return Parsed::More(need); },
        Parsed::Fail => {},
    }
    match tag_rfc822(s, i) {
        Parsed::Val(_, j) => {
            return match nstring(s, j) {
                Parsed::Val(o, k) => Parsed::Val(AttributeValue::Rfc822(o), k),
                Parsed::More(need) => Parsed::More(need),
                Parsed::Fail => Parsed::Fail,
            };
        },
        Parsed::More(need) => { return Parsed::More(need); },
        Parsed::Fail => {},
    }
    match tag_rfc822_size(s, i) {
        Parsed::Val(_, j) => {
            return match number(s, j) {
                Parsed::Val(n, k) => Parsed::Val(AttributeValue::Rfc822Size(n), k),
                Parsed::More(need) => Parsed::More(need),
                Parsed::Fail => Parsed::Fail,
            };
        },
        Parsed::More(need) => { return Parsed::More(need); },
        Parsed::Fail => {},
    }
    match tag_uid(s, i) {
        Parsed::Val(_, j) => match number(s, j) {
            Parsed::Val(n, k) => Parsed::Val(AttributeValue::Uid(n), k),
            Parsed::More(need) => Parsed::More(need),
            Parsed::Fail => Parsed::Fail,
        },
        Parsed::More(need) => Parsed::More(need),
        Parsed::Fail => Parsed::Fail,
    }
}

/// Attributes after the first: repeated `SP attribute`.
pub open spec fn sp_att_rest(s: Seq<u8>, i: int, acc: Seq<SpecAttributeValue>) -> SpecRes<
    Seq<SpecAttributeValue>,
>
    decreases s.len() - i,
{
    match sp_kw_sp(s, i) {
        SpecRes::Val(_, j) => match sp_msg_att(s, j) {
            SpecRes::Val(a, k) => if i < k <= s.len() {
                sp_att_rest(s, k, acc.push(a))
            } else {
                SpecRes::Fail
            },
            SpecRes::More(need) => SpecRes::More(need),
            SpecRes::Fail => SpecRes::Val(acc, i),
        },
        SpecRes::More(need) => SpecRes::More(need),
        SpecRes::Fail => SpecRes::Val(acc, i),
    }
}

/// Decodes the attributes after the first, extending `acc`.
pub fn att_rest(s: &[u8], i: usize, acc: Vec<AttributeValue>) -> (r: Parsed<Vec<AttributeValue>>)
    requires
        i <= s@.len(),
    ensures
        r.deep_view() == sp_att_rest(s@, i as int, acc.deep_view()),
        r matches Parsed::Val(_, j) ==> i <= j <= s@.len(),
    decreases s@.len() - i,
{
    match tag_sp(s, i) {
        Parsed::Val(_, j) => match msg_att(s, j) {
            Parsed::Val(a, k) => {
                let ghost acc0 = acc.deep_view();
                let ghost av = a.deep_view();
                let mut acc = acc;
                acc.push(a);
                proof {
                    assert(acc.deep_view() =~= acc0.push(av));
                }
                att_rest(s, k, acc)
            },
            Parsed::More(need) => Parsed::More(need),
            Parsed::Fail => Parsed::Val(acc, i),
        },
        Parsed::More(need) => Parsed::More(need),
        Parsed::Fail => Parsed::Val(acc, i),
    }
}

/// A parenthesized attribute list of one or more space-separated message
/// attributes, in the order received; duplicates are kept.
pub open spec fn sp_msg_att_list(s: Seq<u8>, i: int) -> SpecRes<Seq<SpecAttributeValue>> {
    match sp_kw_lparen(s, i) {
        SpecRes::Val(_, j) => match sp_msg_att(s, j) {
            SpecRes::Val(a, k) => match sp_att_rest(s, k, seq![a]) {
                SpecRes::Val(atts, m) => match sp_kw_rparen(s, m) {
                    SpecRes::Val(_, p) => SpecRes::Val(atts, p),
                    SpecRes::More(need) => SpecRes::More(need),
                    SpecRes::Fail => SpecRes::Fail,
                },
                SpecRes::More(need) => SpecRes::More(need),
                SpecRes::Fail => SpecRes::Fail,
            },
            SpecRes::More(need) => SpecRes::More(need),
            SpecRes::Fail => SpecRes::Fail,
        },
        SpecRes::More(need) => SpecRes::More(need),
        SpecRes::Fail => SpecRes::Fail,
    }
}

/// Decodes a parenthesized attribute list at `i`.
pub fn msg_att_list(s: &[u8], i: usize) -> (r: Parsed<Vec<AttributeValue>>)
    requires
        i <= s@.len(),
    ensures
        r.deep_view() == sp_msg_att_list(s@, i as int),
        r matches Parsed::Val(_, j) ==> i < j <= s@.len(),
{
    let p = match tag_lparen(s, i) {
        Parsed::Val(_, j) => j,
        Parsed::More(need) => { return Parsed::More(need); },
        Parsed::Fail => { return Parsed::Fail; },
    };
    let (a, q) = match msg_att(s, p) {
        Parsed::Val(a, k) => (a, k),
        Parsed::More(need) => { return Parsed::More(need); },
        Parsed::Fail => { return Parsed::Fail; },
    };
    let ghost av = a.deep_view();
    let mut acc: Vec<AttributeValue> = Vec::new();
    acc.push(a);
    proof {
        assert(acc.deep_view() =~= seq![av]);
    }
    let (atts, m) = match att_rest(s, q, acc) {
        Parsed::Val(v, m) => (v, m),
        Parsed::More(need) => { return Parsed::More(need); },
        Parsed::Fail => { return Parsed::Fail; },
    };
    match tag_rparen(s, m) {
        Parsed::Val(_, p9) => Parsed::Val(atts, p9),
        Parsed::More(need) => Parsed::More(need),
        Parsed::Fail => Parsed::Fail,
    }
}

// ----------------------------------------------------------- response codes

/// The code alternatives inside a bracketed response code, after the `[`.
pub open spec fn sp_code_alts(s: Seq<u8>, i: int) -> SpecRes<SpecResponseCode> {
    match sp_kw_permanent_flags(s, i) {
        SpecRes::Val(_, j) => match sp_flag_list_body(s, j, true) {
            SpecRes::Val(fs, k) => match sp_kw_rparen(s, k) {
                SpecRes::Val(_, m) => SpecRes::Val(SpecResponseCode::PermanentFlags(fs), m),
                SpecRes::More(need) => SpecRes::More(need),
                SpecRes::Fail => SpecRes::Fail,
            },
            SpecRes::More(need) => SpecRes::More(need),
            SpecRes::Fail => SpecRes::Fail,
        },
        SpecRes::More(need) => SpecRes::More(need),
        SpecRes::Fail => match sp_kw_uid_validity(s, i) {
            SpecRes::Val(_, j) => match sp_number(s, j) {
                SpecRes::Val(n, k) => SpecRes::Val(SpecResponseCode::UidValidity(n), k),
                SpecRes::More(need) => SpecRes::More(need),
                SpecRes::Fail => SpecRes::Fail,
            },
            SpecRes::More(need) => SpecRes::More(need),
            SpecRes::Fail => match sp_kw_uid_next(s, i) {
                SpecRes::Val(_, j) => match sp_number(s, j) {
                    SpecRes::Val(n, k) => SpecRes::Val(SpecResponseCode::UidNext(n), k),
                    SpecRes::More(need) => SpecRes::More(need),
                    SpecRes::Fail => SpecRes::Fail,
                },
                SpecRes::More(need) => SpecRes::More(need),
                SpecRes::Fail => match sp_kw_read_only(s, i) {
                    SpecRes::Val(_, j) => SpecRes::Val(SpecResponseCode::ReadOnly, j),
                    SpecRes::More(need) => SpecRes::More(need),
                    SpecRes::Fail => match sp_kw_read_write(s, i) {
                        SpecRes::Val(_, j) => SpecRes::Val(SpecResponseCode::ReadWrite, j),
                        SpecRes::More(need) => SpecRes::More(need),
                        SpecRes::Fail => match sp_kw_try_create(s, i) {
                            SpecRes::Val(_, j) => SpecRes::Val(SpecResponseCode::TryCreate, j),
                            SpecRes::More(need) => SpecRes::More(need),
                            SpecRes::Fail => match sp_kw_highest_mod_seq(s, i) {
                                SpecRes::Val(_, j) => match sp_number_64(s, j) {
                                    SpecRes::Val(n, k) => SpecRes::Val(
                                        SpecResponseCode::HighestModSeq(n),
                                        k,
                                    ),
                                    SpecRes::More(need) => SpecRes::More(need),
                                    SpecRes::Fail => SpecRes::Fail,
                                },
                                SpecRes::More(need) => SpecRes::More(need),
                                SpecRes::Fail => SpecRes::Fail,
                            },
                        },
                    },
                },
            },
        },
    }
}

/// Decodes the code alternatives at `i`, after the `[`.
pub fn code_alts(s: &[u8], i: usize) -> (r: Parsed<ResponseCode>)
    requires
        i <= s@.len(),
    ensures
        r.deep_view() == sp_code_alts(s@, i as int),
        r matches Parsed::Val(_, j) ==> i < j <= s@.len(),
{
    match tag_permanent_flags(s, i) {
        Parsed::Val(_, j) => {
            return match flag_list_body(s, j, true) {
                Parsed::Val(fs, k) => match tag_rparen(s, k) {
                    Parsed::Val(_, m) => Parsed::Val(ResponseCode::PermanentFlags(fs), m),
                    Parsed::More(need) => Parsed::More(need),
                    Parsed::Fail => Parsed::Fail,
                },
                Parsed::More(need) => Parsed::More(need),
                Parsed::Fail => Parsed::Fail,
            };
        },
        Parsed::More(need) => { return Parsed::More(need); },
        Parsed::Fail => {},
    }
    match tag_uid_validity(s, i) {
        Parsed::Val(_, j) => {
            return match number(s, j) {
                Parsed::Val(n, k) => Parsed::Val(ResponseCode::UidValidity(n), k),
                Parsed::More(need) => Parsed::More(need),
                Parsed::Fail => Parsed::Fail,
            };
        },
        Parsed::More(need) => { return Parsed::More(need); },
        Parsed::Fail => {},
    }
    match tag_uid_next(s, i) {
        Parsed::Val(_, j) => {
            return match number(s, j) {
                Parsed::Val(n, k) => Parsed::Val(ResponseCode::UidNext(n), k),
                Parsed::More(need) => Parsed::More(need),
                Parsed::Fail => Parsed::Fail,
            };
        },
        Parsed::More(need) => { return Parsed::More(need); },
        Parsed::Fail => {},
    }
    match tag_read_only(s, i) {
        Parsed::Val(_, j) => { return Parsed::Val(ResponseCode::ReadOnly, j); },
        Parsed::More(need) => { return Parsed::More(need); },
        Parsed::Fail => {},
    }
    match tag_read_write(s, i) {
        Parsed::Val(_, j) => { return Parsed::Val(ResponseCode::ReadWrite, j); },
        Parsed::More(need) => { return Parsed::More(need); },
        Parsed::Fail => {},
    }
    match tag_try_create(s, i) {
        Parsed::Val(_, j) => { return Parsed::Val(ResponseCode::TryCreate, j); },
        Parsed::More(need) => { return Parsed::More(need); },
        Parsed::Fail => {},
    }
    match tag_highest_mod_seq(s, i) {
        Parsed::Val(_, j) => match number_64(s, j) {
            Parsed::Val(n, k) => Parsed::Val(ResponseCode::HighestModSeq(n), k),
            Parsed::More(need) => Parsed::More(need),
            Parsed::Fail => Parsed::Fail,
        },
        Parsed::More(need) => Parsed::More(need),
        Parsed::Fail => Parsed::Fail,
    }
}

/// A bracketed response code: `[`, one code, `]`. The closing bracket is
/// consumed without demanding a following space, since servers may omit the
/// trailing text; that relaxation of the strict grammar is intentional.
pub open spec fn sp_resp_text_code(s: Seq<u8>, i: int) -> SpecRes<SpecResponseCode> {
    match sp_kw_lbracket(s, i) {
        SpecRes::Val(_, j) => match sp_code_alts(s, j) {
            SpecRes::Val(c, k) => match sp_kw_rbracket(s, k) {
                SpecRes::Val(_, m) => SpecRes::Val(c, m),
                SpecRes::More(need) => SpecRes::More(need),
                SpecRes::Fail => SpecRes::Fail,
            },
            SpecRes::More(need) => SpecRes::More(need),
            SpecRes::Fail => SpecRes::Fail,
        },
        SpecRes::More(need) => SpecRes::More(need),
        SpecRes::Fail => SpecRes::Fail,
    }
}

/// Decodes a bracketed response code at `i`.
pub fn resp_text_code(s: &[u8], i: usize) -> (r: Parsed<ResponseCode>)
    requires
        i <= s@.len(),
    ensures
        r.deep_view() == sp_resp_text_code(s@, i as int),
        r matches Parsed::Val(_, j) ==> i < j <= s@.len(),
{
    let p = match tag_lbracket(s, i) {
        Parsed::Val(_, j) => j,
        Parsed::More(need) => { return Parsed::More(need); },
        Parsed::Fail => { return Parsed::Fail; },
    };
    let (c, q) = match code_alts(s, p) {
        Parsed::Val(c, k) => (c, k),
        Parsed::More(need) => { return Parsed::More(need); },
        Parsed::Fail => { return Parsed::Fail; },
    };
    match tag_rbracket(s, q) {
        Parsed::Val(_, m) => Parsed::Val(c, m),
        Parsed::More(need) => Parsed::More(need),
        Parsed::Fail => Parsed::Fail,
    }
}

// --------------------------------------------------------------- resp-text

/// Response text: an optional bracketed response code, then optional free
/// text. After a code, the first text byte is the separating space and is
/// stripped; text that is empty, or holds only that space, is treated as
/// absent. Without a code, non-empty text is kept whole.
pub open spec fn sp_resp_text(s: Seq<u8>, i: int) -> SpecRes<
    (Option<SpecResponseCode>, Option<Seq<u8>>),
> {
    match sp_resp_text_code(s, i) {
        SpecRes::Val(c, j) => match sp_text(s, j) {
            SpecRes::Val(t, k) => SpecRes::Val(
                (
                    Some(c),
                    if t.len() <= 1 {
                        None
                    } else {
                        Some(t.subrange(1, t.len() as int))
                    },
                ),
                k,
            ),
            SpecRes::More(need) => SpecRes::More(need),
            SpecRes::Fail => SpecRes::Fail,
        },
        SpecRes::More(need) => SpecRes::More(need),
        SpecRes::Fail => match sp_text(s, i) {
            SpecRes::Val(t, j) => SpecRes::Val(
                (
                    None,
                    if t.len() == 0 {
                        None
                    } else {
                        Some(t)
                    },
                ),
                j,
            ),
            SpecRes::More(need) => SpecRes::More(need),
            SpecRes::Fail => SpecRes::Fail,
        },
    }
}

/// Decodes response text (optional code, optional text) at `i`.
pub fn resp_text(s: &[u8], i: usize) -> (r: Parsed<(Option<ResponseCode>, Option<Vec<u8>>)>)
    requires
        i <= s@.len(),
    ensures
        r.deep_view() == sp_resp_text(s@, i as int),
        r matches Parsed::Val(_, j) ==> i <= j <= s@.len(),
{
    match resp_text_code(s, i) {
        Parsed::Val(c, j) => match text(s, j) {
            Parsed::Val(t, k) => {
                if t.len() <= 1 {
                    Parsed::Val((Some(c), None), k)
                } else {
                    let ghost tv = t@;
                    let mut t = t;
                    let _first = t.remove(0);
                    proof {
                        assert(t@ =~= tv.subrange(1, tv.len() as int));
                    }
                    Parsed::Val((Some(c), Some(t)), k)
                }
            },
            Parsed::More(need) => Parsed::More(need),
            Parsed::Fail => Parsed::Fail,
        },
        Parsed::More(need) => Parsed::More(need),
        Parsed::Fail => match text(s, i) {
            Parsed::Val(t, j) => {
                if t.len() == 0 {
                    Parsed::Val((None, None), j)
                } else {
                    Parsed::Val((None, Some(t)), j)
                }
            },
            Parsed::More(need) => Parsed::More(need),
            Parsed::Fail => Parsed::Fail,
        },
    }
}

} // verus!
