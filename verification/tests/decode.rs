//! End-to-end decoding scenarios through the public entry point, plus a few
//! direct checks of individual grammar rules.

use imap_decode::parse_response;
use imap_decode::response::response_tagged;
use imap_decode::tokens::flag_extension;
use imap_decode::tokens::literal;
use imap_decode::tokens::number;
use imap_decode::tokens::quoted;
use imap_decode::tokens::string;
use imap_decode::types::Parsed;
use imap_decode::values::address;
use imap_decode::values::flag_list;
use imap_decode::Address;
use imap_decode::AttributeValue;
use imap_decode::Envelope;
use imap_decode::MailboxDatum;
use imap_decode::ParseResult;
use imap_decode::RequestId;
use imap_decode::Response;
use imap_decode::ResponseCode;
use imap_decode::Status;

fn bv(s: &[u8]) -> Vec<u8> {
    s.to_vec()
}

fn ok(input: &[u8]) -> (Response, usize) {
    match parse_response(input) {
        ParseResult::Success(r, n) => (r, n),
        other => panic!("expected success, got {:?}", other),
    }
}

#[test]
fn tagged_ok_with_plain_text() {
    let (r, n) = ok(b"A1 OK LOGIN completed\r\n");
    assert_eq!(n, 23);
    assert_eq!(
        r,
        Response::Done(
            RequestId(bv(b"A1")),
            Status::Okay,
            None,
            Some(bv(b"LOGIN completed")),
        )
    );
}

#[test]
fn tagged_status_is_case_insensitive() {
    let (r, _) = ok(b"a1 ok done\r\n");
    assert_eq!(
        r,
        Response::Done(RequestId(bv(b"a1")), Status::Okay, None, Some(bv(b"done")))
    );
    let (r, _) = ok(b"x No sorry\r\n");
    assert_eq!(
        r,
        Response::Done(RequestId(bv(b"x")), Status::No, None, Some(bv(b"sorry")))
    );
}

#[test]
fn tagged_bad_and_preauth_and_bye() {
    let (r, _) = ok(b"t1 BAD oops\r\n");
    assert!(matches!(r, Response::Done(_, Status::Bad, None, _)));
    let (r, _) = ok(b"* PREAUTH ready\r\n");
    assert_eq!(r, Response::Data(Status::PreAuth, None, Some(bv(b"ready"))));
    let (r, _) = ok(b"* BYE closing\r\n");
    assert_eq!(r, Response::Data(Status::Bye, None, Some(bv(b"closing"))));
}

#[test]
fn literal_keeps_embedded_crlf() {
    // {5}<CRLF>hel<CR><LF>: all five announced bytes belong to the content.
    match literal(b"{5}\r\nhel\r\n", 0) {
        Parsed::Val(v, n) => {
            assert_eq!(v, bv(b"hel\r\n"));
            assert_eq!(n, 10);
        }
        other => panic!("expected value, got {:?}", other),
    }
}

#[test]
fn literal_as_nstring_inside_fetch() {
    let (r, n) = ok(b"* 1 FETCH (RFC822 {5}\r\nhel\r\n)\r\n");
    assert_eq!(n, 31);
    assert_eq!(
        r,
        Response::Fetch(1, vec![AttributeValue::Rfc822(Some(bv(b"hel\r\n")))])
    );
}

#[test]
fn literal_reports_missing_byte_count() {
    match literal(b"{10}\r\nabc", 0) {
        Parsed::More(hint) => assert_eq!(hint, Some(7)),
        other => panic!("expected more-input, got {:?}", other),
    }
}

#[test]
fn partial_exists_line_is_incomplete_then_decodes() {
    match parse_response(b"* 5 EXI") {
        ParseResult::Incomplete(_) => {}
        other => panic!("expected incomplete, got {:?}", other),
    }
    let (r, n) = ok(b"* 5 EXISTS\r\n");
    assert_eq!(n, 12);
    assert_eq!(r, Response::MailboxData(MailboxDatum::Exists(5)));
}

#[test]
fn empty_input_is_incomplete() {
    assert!(matches!(parse_response(b""), ParseResult::Incomplete(_)));
}

#[test]
fn recent_and_expunge() {
    let (r, _) = ok(b"* 3 RECENT\r\n");
    assert_eq!(r, Response::MailboxData(MailboxDatum::Recent(3)));
    let (r, n) = ok(b"* 44 EXPUNGE\r\n");
    assert_eq!(n, 14);
    assert_eq!(r, Response::Expunge(44));
}

#[test]
fn empty_flag_list_is_empty_not_absent() {
    match flag_list(b"()", 0) {
        Parsed::Val(v, n) => {
            assert_eq!(v, Vec::<Vec<u8>>::new());
            assert_eq!(n, 2);
        }
        other => panic!("expected value, got {:?}", other),
    }
}

#[test]
fn flag_list_keeps_order() {
    match flag_list(b"(\\Seen \\Deleted)", 0) {
        Parsed::Val(v, _) => assert_eq!(v, vec![bv(b"\\Seen"), bv(b"\\Deleted")]),
        other => panic!("expected value, got {:?}", other),
    }
    let (r, _) = ok(b"* FLAGS (\\Answered \\Flagged keyword)\r\n");
    assert_eq!(
        r,
        Response::MailboxData(MailboxDatum::Flags(vec![
            bv(b"\\Answered"),
            bv(b"\\Flagged"),
            bv(b"keyword"),
        ]))
    );
}

#[test]
fn code_without_trailing_text_yields_no_text() {
    let (r, n) = ok(b"A1 OK [READ-WRITE]\r\n");
    assert_eq!(n, 20);
    assert_eq!(
        r,
        Response::Done(
            RequestId(bv(b"A1")),
            Status::Okay,
            Some(ResponseCode::ReadWrite),
            None,
        )
    );
}

#[test]
fn code_with_trailing_text_drops_separating_space() {
    let (r, _) = ok(b"A2 OK [UIDVALIDITY 1234] selected\r\n");
    assert_eq!(
        r,
        Response::Done(
            RequestId(bv(b"A2")),
            Status::Okay,
            Some(ResponseCode::UidValidity(1234)),
            Some(bv(b"selected")),
        )
    );
}

#[test]
fn read_only_uidnext_and_trycreate_codes() {
    let (r, _) = ok(b"A3 OK [READ-ONLY] x\r\n");
    assert!(matches!(
        r,
        Response::Done(_, _, Some(ResponseCode::ReadOnly), _)
    ));
    let (r, _) = ok(b"* OK [UIDNEXT 4392]\r\n");
    assert_eq!(
        r,
        Response::Data(Status::Okay, Some(ResponseCode::UidNext(4392)), None)
    );
    let (r, _) = ok(b"A4 NO [TRYCREATE]\r\n");
    assert!(matches!(
        r,
        Response::Done(_, Status::No, Some(ResponseCode::TryCreate), None)
    ));
}

#[test]
fn highest_mod_seq_code_is_64_bit() {
    let (r, _) = ok(b"* OK [HIGHESTMODSEQ 715194045007]\r\n");
    assert_eq!(
        r,
        Response::Data(
            Status::Okay,
            Some(ResponseCode::HighestModSeq(715194045007)),
            None,
        )
    );
}

#[test]
fn permanent_flags_allow_the_star_marker() {
    let (r, _) = ok(b"A1 OK [PERMANENTFLAGS (\\* \\Seen)] done\r\n");
    assert_eq!(
        r,
        Response::Done(
            RequestId(bv(b"A1")),
            Status::Okay,
            Some(ResponseCode::PermanentFlags(vec![bv(b"\\*"), bv(b"\\Seen")])),
            Some(bv(b"done")),
        )
    );
    let (r, _) = ok(b"* OK [PERMANENTFLAGS ()]\r\n");
    assert_eq!(
        r,
        Response::Data(
            Status::Okay,
            Some(ResponseCode::PermanentFlags(Vec::new())),
            None,
        )
    );
}

#[test]
fn capability_listing() {
    let (r, n) = ok(b"* CAPABILITY IMAP4rev1 STARTTLS\r\n");
    assert_eq!(n, 33);
    assert_eq!(
        r,
        Response::Capabilities(vec![bv(b"IMAP4rev1"), bv(b"STARTTLS")])
    );
}

#[test]
fn capability_without_names_is_a_syntax_error() {
    assert!(matches!(
        parse_response(b"* CAPABILITY\r\n"),
        ParseResult::SyntaxError
    ));
}

#[test]
fn all_null_address_round_trips() {
    // The canonical serialization of an address with four null fields.
    match address(b"(NIL NIL NIL NIL)", 0) {
        Parsed::Val(a, n) => {
            assert_eq!(n, 17);
            assert_eq!(
                a,
                Address {
                    name: None,
                    adl: None,
                    mailbox: None,
                    host: None,
                }
            );
        }
        other => panic!("expected value, got {:?}", other),
    }
}

#[test]
fn quoted_address_fields_round_trip() {
    match address(b"(\"Joe\" NIL \"joe\" \"example.com\")", 0) {
        Parsed::Val(a, _) => {
            assert_eq!(
                a,
                Address {
                    name: Some(bv(b"Joe")),
                    adl: None,
                    mailbox: Some(bv(b"joe")),
                    host: Some(bv(b"example.com")),
                }
            );
        }
        other => panic!("expected value, got {:?}", other),
    }
}

fn envelope_line(from: &[u8], sender: &[u8]) -> Vec<u8> {
    let mut v = Vec::new();
    v.extend_from_slice(b"* 1 FETCH (ENVELOPE (NIL \"subj\" ");
    v.extend_from_slice(from);
    v.push(b' ');
    v.extend_from_slice(sender);
    v.extend_from_slice(b" NIL NIL NIL NIL NIL NIL))\r\n");
    v
}

fn fetched_envelope(r: Response) -> Envelope {
    match r {
        Response::Fetch(_, mut atts) => match atts.remove(0) {
            AttributeValue::Envelope(e) => e,
            other => panic!("expected envelope, got {:?}", other),
        },
        other => panic!("expected fetch, got {:?}", other),
    }
}

#[test]
fn envelope_fields_decode_in_fixed_order() {
    let line = envelope_line(b"((\"a\" NIL \"a\" \"h\"))", b"NIL");
    let (r, _) = ok(&line);
    let e = fetched_envelope(r);
    assert_eq!(e.date, None);
    assert_eq!(e.subject, Some(bv(b"subj")));
    assert_eq!(
        e.from,
        Some(vec![Address {
            name: Some(bv(b"a")),
            adl: None,
            mailbox: Some(bv(b"a")),
            host: Some(bv(b"h")),
        }])
    );
    assert_eq!(e.sender, None);
    assert_eq!(e.reply_to, None);
    assert_eq!(e.message_id, None);
}

#[test]
fn swapping_from_and_sender_changes_the_envelope() {
    let one = envelope_line(b"((\"a\" NIL \"a\" \"h\"))", b"NIL");
    let two = envelope_line(b"NIL", b"((\"a\" NIL \"a\" \"h\"))");
    let (r1, _) = ok(&one);
    let (r2, _) = ok(&two);
    let e1 = fetched_envelope(r1);
    let e2 = fetched_envelope(r2);
    assert_ne!(e1, e2);
    assert_eq!(e1.from, e2.sender);
    assert_eq!(e1.sender, e2.from);
}

#[test]
fn fetch_with_several_attributes_keeps_their_order() {
    let (r, _) = ok(b"* 7 FETCH (UID 42 MODSEQ (65402) FLAGS ())\r\n");
    assert_eq!(
        r,
        Response::Fetch(
            7,
            vec![
                AttributeValue::Uid(42),
                AttributeValue::ModSeq(65402),
                AttributeValue::Flags(Vec::new()),
            ]
        )
    );
}

#[test]
fn fetch_internal_date_and_size() {
    let (r, _) = ok(b"* 2 FETCH (INTERNALDATE \"17-Jul-1996 02:44:25 -0700\" RFC822.SIZE 4827)\r\n");
    assert_eq!(
        r,
        Response::Fetch(
            2,
            vec![
                AttributeValue::InternalDate(bv(b"17-Jul-1996 02:44:25 -0700")),
                AttributeValue::Rfc822Size(4827),
            ]
        )
    );
}

#[test]
fn fetch_internal_date_nil_is_a_syntax_error() {
    assert!(matches!(
        parse_response(b"* 2 FETCH (INTERNALDATE NIL)\r\n"),
        ParseResult::SyntaxError
    ));
}

#[test]
fn quoted_escape_keeps_escaped_byte() {
    match quoted(b"\"a\\\"b\"", 0) {
        Parsed::Val(v, n) => {
            assert_eq!(v, bv(b"a\"b"));
            assert_eq!(n, 6);
        }
        other => panic!("expected value, got {:?}", other),
    }
    match quoted(b"\"a\\\\b\"", 0) {
        Parsed::Val(v, _) => assert_eq!(v, bv(b"a\\b")),
        other => panic!("expected value, got {:?}", other),
    }
}

#[test]
fn quoted_without_closing_quote_is_incomplete() {
    assert!(matches!(quoted(b"\"abc", 0), Parsed::More(_)));
    assert!(matches!(string(b"\"abc\\", 0), Parsed::More(_)));
}

#[test]
fn quoted_nil_is_present_not_absent() {
    let (r, _) = ok(b"* 1 FETCH (RFC822 \"NIL\")\r\n");
    assert_eq!(r, Response::Fetch(1, vec![AttributeValue::Rfc822(Some(bv(b"NIL")))]));
    let (r, _) = ok(b"* 1 FETCH (RFC822 NIL)\r\n");
    assert_eq!(r, Response::Fetch(1, vec![AttributeValue::Rfc822(None)]));
}

#[test]
fn number_above_32_bits_is_refused() {
    assert!(matches!(number(b"4294967295 ", 0), Parsed::Val(4294967295, 10)));
    assert!(matches!(number(b"4294967296 ", 0), Parsed::Fail));
    assert!(matches!(
        parse_response(b"* 99999999999 EXISTS\r\n"),
        ParseResult::SyntaxError
    ));
}

#[test]
fn flag_extension_keeps_backslash() {
    match flag_extension(b"\\Seen ", 0) {
        Parsed::Val(v, n) => {
            assert_eq!(v, bv(b"\\Seen"));
            assert_eq!(n, 5);
        }
        other => panic!("expected value, got {:?}", other),
    }
}

#[test]
fn leading_plus_can_begin_no_response() {
    assert!(matches!(parse_response(b"+ idle\r\n"), ParseResult::SyntaxError));
}

#[test]
fn consumed_count_stops_at_the_first_unit() {
    let (r, n) = ok(b"* 1 EXPUNGE\r\nA1 OK done\r\n");
    assert_eq!(r, Response::Expunge(1));
    assert_eq!(n, 13);
    let (r2, n2) = ok(&b"* 1 EXPUNGE\r\nA1 OK done\r\n"[n..]);
    assert_eq!(n2, 12);
    assert_eq!(
        r2,
        Response::Done(RequestId(bv(b"A1")), Status::Okay, None, Some(bv(b"done")))
    );
}

#[test]
fn tagged_line_without_crlf_is_incomplete() {
    assert!(matches!(parse_response(b"A1 OK done"), ParseResult::Incomplete(_)));
    assert!(matches!(parse_response(b"A1 OK done\r"), ParseResult::Incomplete(_)));
}

#[test]
fn response_tagged_rule_directly() {
    match response_tagged(b"tag57 BAD no\r\n", 0) {
        Parsed::Val(r, n) => {
            assert_eq!(n, 14);
            assert_eq!(
                r,
                Response::Done(
                    RequestId(bv(b"tag57")),
                    Status::Bad,
                    None,
                    Some(bv(b"no")),
                )
            );
        }
        other => panic!("expected value, got {:?}", other),
    }
}
