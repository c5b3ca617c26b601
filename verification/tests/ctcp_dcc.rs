//! CTCP classification, reply generation, and the DCC SEND grammar.

use xdcc_cli::command::MessageFrom;
use xdcc_cli::ctcp::{CtcpReply, CtcpRequest, CtcpRequestType};
use xdcc_cli::dcc::{DccType, TransferProgress};

fn from_bot(message: &str) -> MessageFrom {
    MessageFrom { sender: "bot".to_string(), message: message.to_string() }
}

fn parse_send(payload: &str) -> Option<xdcc_cli::dcc::Send> {
    match DccType::parse(payload) {
        Some(DccType::Send(s)) => Some(s),
        None => None,
    }
}

#[test]
fn ctcp_version_request() {
    assert!(matches!(
        CtcpRequestType::parse("\u{1}VERSION\u{1}"),
        Some(CtcpRequestType::Version)
    ));
}

#[test]
fn ctcp_ping_request_keeps_payload() {
    match CtcpRequestType::parse("\u{1}PING 1662483201\u{1}") {
        Some(CtcpRequestType::Ping(payload)) => assert_eq!(payload, "1662483201"),
        _ => panic!("expected a Ping request"),
    }
}

#[test]
fn ctcp_time_and_clientinfo_requests() {
    assert!(matches!(CtcpRequestType::parse("\u{1}TIME\u{1}"), Some(CtcpRequestType::Time)));
    assert!(matches!(
        CtcpRequestType::parse("\u{1}CLIENTINFO\u{1}"),
        Some(CtcpRequestType::ClientInfo)
    ));
}

#[test]
fn unframed_text_is_no_request() {
    assert!(CtcpRequestType::parse("VERSION").is_none());
    assert!(CtcpRequestType::parse("just chatting").is_none());
}

#[test]
fn unrecognized_framed_payload_is_ignored() {
    assert!(CtcpRequestType::parse("\u{1}ACTION waves\u{1}").is_none());
}

#[test]
fn dcc_send_quoted_filename_with_spaces() {
    let s = parse_send("DCC SEND \"my cool file.tar.gz\" 3232235777 6667 1024").unwrap();
    assert_eq!(s.filename, "my cool file.tar.gz");
    assert_eq!(s.ip, 3232235777);
    assert_eq!(s.port, 6667);
    assert_eq!(s.file_size, 1024);
}

#[test]
fn dcc_send_bare_filename_with_spaces() {
    let s = parse_send("DCC SEND my file 16909060 5000 42").unwrap();
    assert_eq!(s.filename, "my file");
    assert_eq!(s.ip, 16909060);
}

#[test]
fn dcc_send_address_is_big_endian() {
    let s = parse_send("DCC SEND f 16909060 5000 42").unwrap();
    assert_eq!(s.ip_string(), "1.2.3.4");
    let t = parse_send("DCC SEND f 3232235777 6667 1").unwrap();
    assert_eq!(t.ip_string(), "192.168.1.1");
}

#[test]
fn dcc_send_rejects_out_of_range_numbers() {
    assert!(parse_send("DCC SEND f 4294967296 5000 42").is_none());
    assert!(parse_send("DCC SEND f 1 70000 42").is_none());
    assert!(parse_send("DCC SEND f 1 5000 99999999999999999999999").is_none());
}

#[test]
fn dcc_send_rejects_missing_fields() {
    assert!(parse_send("DCC SEND f 1 2").is_none());
    assert!(parse_send("DCC SEND f").is_none());
    assert!(parse_send("DCC CHAT chat 1 2 3").is_none());
}

#[test]
fn dcc_send_accepts_empty_filename() {
    let s = parse_send("DCC SEND  1 2 3").unwrap();
    assert_eq!(s.filename, "");
    let q = parse_send("DCC SEND \"\" 1 2 3").unwrap();
    assert_eq!(q.filename, "");
}

#[test]
fn dcc_send_accepts_largest_size() {
    let s = parse_send("DCC SEND f 1 2 18446744073709551615").unwrap();
    assert_eq!(s.file_size, u64::MAX);
}

#[test]
fn normalized_filename_replaces_every_space() {
    let s = parse_send("DCC SEND \"a b c_d.txt\" 1 2 3").unwrap();
    assert_eq!(s.normalized_filename(), "a_b_c_d.txt");
}

#[test]
fn ctcp_dcc_send_inside_frame() {
    match CtcpRequestType::parse("\u{1}DCC SEND \"file name\" 3232235777 6667 11\u{1}") {
        Some(CtcpRequestType::Dcc(DccType::Send(s))) => {
            assert_eq!(s.filename, "file name");
            assert_eq!(s.port, 6667);
            assert_eq!(s.file_size, 11);
        },
        _ => panic!("expected a DCC request"),
    }
}

#[test]
fn reply_to_version_is_fixed_identifier() {
    let req = CtcpRequest::try_from_request(from_bot("\u{1}VERSION\u{1}")).unwrap();
    match req.generate_reply_at("") {
        CtcpReply::Message(m) => {
            assert_eq!(m.recipient, "bot");
            assert_eq!(m.message, "\u{1}VERSION RustIrcClient 0.1-dev\u{1}");
        },
        _ => panic!("expected a message reply"),
    }
}

#[test]
fn reply_to_ping_echoes_payload() {
    let req = CtcpRequest::try_from_request(from_bot("\u{1}PING 777\u{1}")).unwrap();
    match req.generate_reply_at("") {
        CtcpReply::Message(m) => assert_eq!(m.message, "\u{1}PING 777\u{1}"),
        _ => panic!("expected a message reply"),
    }
}

#[test]
fn reply_to_time_uses_given_clock_text() {
    let req = CtcpRequest::try_from_request(from_bot("\u{1}TIME\u{1}")).unwrap();
    match req.generate_reply_at("Thu, 01 Jan 1970 00:00:00 +0000") {
        CtcpReply::Message(m) => {
            assert_eq!(m.message, "\u{1}TIME Thu, 01 Jan 1970 00:00:00 +0000\u{1}");
        },
        _ => panic!("expected a message reply"),
    }
}

#[test]
fn reply_to_clientinfo_lists_supported_commands() {
    let req = CtcpRequest::try_from_request(from_bot("\u{1}CLIENTINFO\u{1}")).unwrap();
    match req.generate_reply_at("") {
        CtcpReply::Message(m) => {
            assert_eq!(m.message, "\u{1}CLIENTINFO ACTION CLIENTINFO DCC PING TIME VERSION\u{1}");
        },
        _ => panic!("expected a message reply"),
    }
}

#[test]
fn reply_to_dcc_surfaces_offer_with_sender() {
    let req = CtcpRequest::try_from_request(from_bot("\u{1}DCC SEND f 1 2 3\u{1}")).unwrap();
    match req.generate_reply_at("") {
        CtcpReply::Dcc(d) => {
            assert_eq!(d.sender, "bot");
            let DccType::Send(s) = d.dcc_type;
            assert_eq!(s.filename, "f");
        },
        _ => panic!("expected an offer"),
    }
}

#[test]
fn transfer_progress_stops_at_declared_size() {
    let mut p = TransferProgress::new(11);
    assert!(!p.record_bytes(4));
    assert!(!p.is_complete());
    assert!(p.record_bytes(7));
    assert!(p.is_complete());
}

#[test]
fn transfer_progress_may_overshoot() {
    let mut p = TransferProgress::new(10);
    assert!(p.record_bytes(4096));
    assert_eq!(p.received, 4096);
}
