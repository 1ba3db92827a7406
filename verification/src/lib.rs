//! Decoder for the server-to-client response grammar of the IMAP wire
//! protocol: tagged and untagged CRLF-terminated lines with embedded
//! length-prefixed binary literals.
//!
//! Given an arbitrary prefix of the byte stream, [`parse_response`] either
//! recognizes one complete well-formed response and reports how many bytes it
//! consumed, reports that more bytes are needed before a decision can be
//! made, or reports that the bytes can never begin a valid response.

pub mod chars;
pub mod kw;
pub mod laws;
pub mod response;
pub mod values;
pub mod tokens;
pub mod types;
pub mod wire;

pub use response::parse_response;
pub use types::Address;
pub use types::AttributeValue;
pub use types::Envelope;
pub use types::MailboxDatum;
pub use types::ParseResult;
pub use types::RequestId;
pub use types::Response;
pub use types::ResponseCode;
pub use types::Status;
