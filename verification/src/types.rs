//! The decoded data model, the per-rule outcome type, and the ghost mirrors
//! that contracts are stated over.
//!
//! Every textual field is carried as raw bytes (`Vec<u8>`): literal payloads
//! are binary-safe on the wire and may hold bytes that are not valid UTF-8,
//! so no textual validation is imposed here.

use vstd::prelude::*;

verus! {

/// Outcome of applying one grammar rule at a position of the input: the
/// decoded value with the position just past the consumed bytes; a need for
/// more input, with the least number of additional bytes when that is known;
/// or a definite mismatch.
#[derive(Clone, Debug, PartialEq, Eq)]
pub enum Parsed<T> {
    Val(T, usize),
    More(Option<usize>),
    Fail,
}

/// Mathematical counterpart of [`Parsed`], over ghost values and positions.
pub ghost enum SpecRes<T> {
    Val(T, int),
    More(Option<int>),
    Fail,
}

impl<T: DeepView> DeepView for Parsed<T> {
    type V = SpecRes<T::V>;

    open spec fn deep_view(&self) -> SpecRes<T::V> {
        match self {
            Parsed::Val(v, n) => SpecRes::Val(v.deep_view(), *n as int),
            Parsed::More(h) => SpecRes::More(
                match h {
                    Some(k) => Some(*k as int),
                    None => None,
                },
            ),
            Parsed::Fail => SpecRes::Fail,
        }
    }
}

/// The deep view of a byte vector is its plain view.
pub broadcast proof fn lemma_bytes_deep_view(v: Vec<u8>)
    ensures
        #[trigger] v.deep_view() == v@,
{
    assert(v.deep_view() =~= v@);
}

/// Opaque tag correlating a tagged completion response to the command that
/// produced it; identity is exact byte equality.
#[derive(Clone, Debug, PartialEq, Eq)]
pub struct RequestId(pub Vec<u8>);

impl DeepView for RequestId {
    type V = Seq<u8>;

    open spec fn deep_view(&self) -> Seq<u8> {
        self.0.deep_view()
    }
}

/// Disposition of a completion or condition response.
#[derive(Clone, Copy, Debug, PartialEq, Eq)]
pub enum Status {
    Okay,
    No,
    Bad,
    PreAuth,
    Bye,
}

impl DeepView for Status {
    type V = Status;

    open spec fn deep_view(&self) -> Status {
        *self
    }
}

/// A bracketed advisory code carried inside response text.
#[derive(Clone, Debug, PartialEq, Eq)]
pub enum ResponseCode {
    PermanentFlags(Vec<Vec<u8>>),
    UidValidity(u32),
    UidNext(u32),
    HighestModSeq(u64),
    ReadOnly,
    ReadWrite,
    TryCreate,
}

/// Ghost mirror of [`ResponseCode`].
pub ghost enum SpecResponseCode {
    PermanentFlags(Seq<Seq<u8>>),
    UidValidity(u32),
    UidNext(u32),
    HighestModSeq(u64),
    ReadOnly,
    ReadWrite,
    TryCreate,
}

impl DeepView for ResponseCode {
    type V = SpecResponseCode;

    open spec fn deep_view(&self) -> SpecResponseCode {
        match self {
            ResponseCode::PermanentFlags(f) => SpecResponseCode::PermanentFlags(f.deep_view()),
            ResponseCode::UidValidity(n) => SpecResponseCode::UidValidity(*n),
            ResponseCode::UidNext(n) => SpecResponseCode::UidNext(*n),
            ResponseCode::HighestModSeq(n) => SpecResponseCode::HighestModSeq(*n),
            ResponseCode::ReadOnly => SpecResponseCode::ReadOnly,
            ResponseCode::ReadWrite => SpecResponseCode::ReadWrite,
            ResponseCode::TryCreate => SpecResponseCode::TryCreate,
        }
    }
}

/// One parenthesized address: four independently nullable fields in fixed
/// order (display name, route, mailbox local part, host).
#[derive(Clone, Debug, PartialEq, Eq)]
pub struct Address {
    pub name: Option<Vec<u8>>,
    pub adl: Option<Vec<u8>>,
    pub mailbox: Option<Vec<u8>>,
    pub host: Option<Vec<u8>>,
}

/// Ghost mirror of [`Address`].
pub ghost struct SpecAddress {
    pub name: Option<Seq<u8>>,
    pub adl: Option<Seq<u8>>,
    pub mailbox: Option<Seq<u8>>,
    pub host: Option<Seq<u8>>,
}

impl DeepView for Address {
    type V = SpecAddress;

    open spec fn deep_view(&self) -> SpecAddress {
        SpecAddress {
            name: self.name.deep_view(),
            adl: self.adl.deep_view(),
            mailbox: self.mailbox.deep_view(),
            host: self.host.deep_view(),
        }
    }
}

/// The fixed nine-field envelope structure. An absent address list (`NIL` on
/// the wire) is `None`; an empty one would be `Some` of an empty vector, and
/// the two are distinct. Field order is part of the wire contract.
#[derive(Clone, Debug, PartialEq, Eq)]
pub struct Envelope {
    pub date: Option<Vec<u8>>,
    pub subject: Option<Vec<u8>>,
    pub from: Option<Vec<Address>>,
    pub sender: Option<Vec<Address>>,
    pub reply_to: Option<Vec<Address>>,
    pub to: Option<Vec<Address>>,
    pub cc: Option<Vec<Address>>,
    pub bcc: Option<Vec<Address>>,
    pub in_reply_to: Option<Vec<u8>>,
    pub message_id: Option<Vec<u8>>,
}

/// Ghost mirror of [`Envelope`].
pub ghost struct SpecEnvelope {
    pub date: Option<Seq<u8>>,
    pub subject: Option<Seq<u8>>,
    pub from: Option<Seq<SpecAddress>>,
    pub sender: Option<Seq<SpecAddress>>,
    pub reply_to: Option<Seq<SpecAddress>>,
    pub to: Option<Seq<SpecAddress>>,
    pub cc: Option<Seq<SpecAddress>>,
    pub bcc: Option<Seq<SpecAddress>>,
    pub in_reply_to: Option<Seq<u8>>,
    pub message_id: Option<Seq<u8>>,
}

impl DeepView for Envelope {
    type V = SpecEnvelope;

    open spec fn deep_view(&self) -> SpecEnvelope {
        SpecEnvelope {
            date: self.date.deep_view(),
            subject: self.subject.deep_view(),
            from: self.from.deep_view(),
            sender: self.sender.deep_view(),
            reply_to: self.reply_to.deep_view(),
            to: self.to.deep_view(),
            cc: self.cc.deep_view(),
            bcc: self.bcc.deep_view(),
            in_reply_to: self.in_reply_to.deep_view(),
            message_id: self.message_id.deep_view(),
        }
    }
}

/// One decoded message attribute of a fetch response.
#[derive(Clone, Debug, PartialEq, Eq)]
pub enum AttributeValue {
    Envelope(Envelope),
    InternalDate(Vec<u8>),
    Flags(Vec<Vec<u8>>),
    Rfc822(Option<Vec<u8>>),
    Rfc822Size(u32),
    ModSeq(u64),
    Uid(u32),
}

/// Ghost mirror of [`AttributeValue`].
pub ghost enum SpecAttributeValue {
    Envelope(SpecEnvelope),
    InternalDate(Seq<u8>),
    Flags(Seq<Seq<u8>>),
    Rfc822(Option<Seq<u8>>),
    Rfc822Size(u32),
    ModSeq(u64),
    Uid(u32),
}

impl DeepView for AttributeValue {
    type V = SpecAttributeValue;

    open spec fn deep_view(&self) -> SpecAttributeValue {
        match self {
            AttributeValue::Envelope(e) => SpecAttributeValue::Envelope(e.deep_view()),
            AttributeValue::InternalDate(d) => SpecAttributeValue::InternalDate(d.deep_view()),
            AttributeValue::Flags(f) => SpecAttributeValue::Flags(f.deep_view()),
            AttributeValue::Rfc822(r) => SpecAttributeValue::Rfc822(r.deep_view()),
            AttributeValue::Rfc822Size(n) => SpecAttributeValue::Rfc822Size(*n),
            AttributeValue::ModSeq(n) => SpecAttributeValue::ModSeq(*n),
            AttributeValue::Uid(n) => SpecAttributeValue::Uid(*n),
        }
    }
}

/// Server-pushed mailbox state.
#[derive(Clone, Debug, PartialEq, Eq)]
pub enum MailboxDatum {
    Flags(Vec<Vec<u8>>),
    Exists(u32),
    Recent(u32),
}

/// Ghost mirror of [`MailboxDatum`].
pub ghost enum SpecMailboxDatum {
    Flags(Seq<Seq<u8>>),
    Exists(u32),
    Recent(u32),
}

impl DeepView for MailboxDatum {
    type V = SpecMailboxDatum;

    open spec fn deep_view(&self) -> SpecMailboxDatum {
        match self {
            MailboxDatum::Flags(f) => SpecMailboxDatum::Flags(f.deep_view()),
            MailboxDatum::Exists(n) => SpecMailboxDatum::Exists(*n),
            MailboxDatum::Recent(n) => SpecMailboxDatum::Recent(*n),
        }
    }
}

/// One complete decoded response unit.
#[derive(Clone, Debug, PartialEq, Eq)]
pub enum Response {
    Done(RequestId, Status, Option<ResponseCode>, Option<Vec<u8>>),
    Data(Status, Option<ResponseCode>, Option<Vec<u8>>),
    Capabilities(Vec<Vec<u8>>),
    MailboxData(MailboxDatum),
    Fetch(u32, Vec<AttributeValue>),
    Expunge(u32),
}

/// Ghost mirror of [`Response`].
pub ghost enum SpecResponse {
    Done(Seq<u8>, Status, Option<SpecResponseCode>, Option<Seq<u8>>),
    Data(Status, Option<SpecResponseCode>, Option<Seq<u8>>),
    Capabilities(Seq<Seq<u8>>),
    MailboxData(SpecMailboxDatum),
    Fetch(u32, Seq<SpecAttributeValue>),
    Expunge(u32),
}

impl DeepView for Response {
    type V = SpecResponse;

    open spec fn deep_view(&self) -> SpecResponse {
        match self {
            Response::Done(t, s, c, x) => SpecResponse::Done(
                t.deep_view(),
                s.deep_view(),
                c.deep_view(),
                x.deep_view(),
            ),
            Response::Data(s, c, x) => SpecResponse::Data(
                s.deep_view(),
                c.deep_view(),
                x.deep_view(),
            ),
            Response::Capabilities(c) => SpecResponse::Capabilities(c.deep_view()),
            Response::MailboxData(d) => SpecResponse::MailboxData(d.deep_view()),
            Response::Fetch(n, a) => SpecResponse::Fetch(*n, a.deep_view()),
            Response::Expunge(n) => SpecResponse::Expunge(*n),
        }
    }
}

/// Overall outcome of decoding one response unit from the head of a buffer:
/// a decoded response with the count of bytes it consumed; a need for more
/// bytes, with the least additional count when known; or a definite refusal.
#[derive(Clone, Debug, PartialEq, Eq)]
pub enum ParseResult {
    Success(Response, usize),
    Incomplete(Option<usize>),
    SyntaxError,
}

impl DeepView for ParseResult {
    type V = SpecRes<SpecResponse>;

    open spec fn deep_view(&self) -> SpecRes<SpecResponse> {
        match self {
            ParseResult::Success(v, n) => SpecRes::Val(v.deep_view(), *n as int),
            ParseResult::Incomplete(h) => SpecRes::More(
                match h {
                    Some(k) => Some(*k as int),
                    None => None,
                },
            ),
            ParseResult::SyntaxError => SpecRes::Fail,
        }
    }
}

} // verus!
