//! The line codec: exact encode templates and decode classification.

use xdcc_cli::command::{ClientCommand, MessageTo, ServerCommand};

fn msg_to(recipient: &str, message: &str) -> MessageTo {
    MessageTo { recipient: recipient.to_string(), message: message.to_string() }
}

#[test]
fn encode_pong() {
    let s = ClientCommand::Pong("12345".to_string()).encode();
    assert_eq!(s, "PONG 12345\r\n");
}

#[test]
fn encode_join() {
    let s = ClientCommand::Join("#chan".to_string()).encode();
    assert_eq!(s, "JOIN :#chan\r\n");
}

#[test]
fn encode_privmsg() {
    let s = ClientCommand::PrivMsg(msg_to("bot", "xdcc send #1")).encode();
    assert_eq!(s, "PRIVMSG bot :xdcc send #1\r\n");
}

#[test]
fn encode_quit() {
    let s = ClientCommand::Quit("Goodbye".to_string()).encode();
    assert_eq!(s, "QUIT :Goodbye\r\n");
}

#[test]
fn encode_nick() {
    let s = ClientCommand::Nick("downloader".to_string()).encode();
    assert_eq!(s, "NICK downloader\r\n");
}

#[test]
fn encode_user_repeats_name() {
    let s = ClientCommand::User("downloader".to_string()).encode();
    assert_eq!(s, "USER downloader 0 * downloader\r\n");
}

#[test]
fn encode_notice() {
    let s = ClientCommand::Notice(msg_to("asker", "\u{1}PING 7\u{1}")).encode();
    assert_eq!(s, "NOTICE asker :\u{1}PING 7\u{1}\r\n");
}

#[test]
fn decode_ping() {
    match ServerCommand::decode("PING :server.example") {
        ServerCommand::Ping(token) => assert_eq!(token, ":server.example"),
        _ => panic!("expected a Ping"),
    }
}

#[test]
fn decode_privmsg() {
    match ServerCommand::decode(":nick!user@host PRIVMSG #chan :hello world") {
        ServerCommand::PrivMsg(m) => {
            assert_eq!(m.sender, "nick");
            assert_eq!(m.message, "hello world");
        },
        _ => panic!("expected a PrivMsg"),
    }
}

#[test]
fn decode_privmsg_keeps_embedded_colon() {
    match ServerCommand::decode(":a!u@h PRIVMSG me :one :two") {
        ServerCommand::PrivMsg(m) => {
            assert_eq!(m.sender, "a");
            assert_eq!(m.message, "one :two");
        },
        _ => panic!("expected a PrivMsg"),
    }
}

#[test]
fn decode_unknown_keeps_line() {
    match ServerCommand::decode(":irc.example 001 nick :Welcome") {
        ServerCommand::Unknown(line) => assert_eq!(line, ":irc.example 001 nick :Welcome"),
        _ => panic!("expected Unknown"),
    }
}

#[test]
fn decode_ping_takes_priority_at_line_start() {
    match ServerCommand::decode("PING hello") {
        ServerCommand::Ping(token) => assert_eq!(token, "hello"),
        _ => panic!("expected a Ping"),
    }
}
