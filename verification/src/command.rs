//! The IRC line codec: inbound lines decoded to server commands, client
//! commands encoded to CRLF-terminated lines.

use vstd::prelude::*;
use crate::text::{match_at, find_from, str_chars, chars_to_string, matches_at, find_pattern};

verus! {

pub struct MessageFrom {
    pub sender: String,
    pub message: String,
}

pub struct MessageTo {
    pub recipient: String,
    pub message: String,
}

pub struct MessageFromView {
    pub sender: Seq<char>,
    pub message: Seq<char>,
}

pub struct MessageToView {
    pub recipient: Seq<char>,
    pub message: Seq<char>,
}

impl View for MessageFrom {
    type V = MessageFromView;

    open spec fn view(&self) -> MessageFromView {
        MessageFromView { sender: self.sender@, message: self.message@ }
    }
}

impl View for MessageTo {
    type V = MessageToView;

    open spec fn view(&self) -> MessageToView {
        MessageToView { recipient: self.recipient@, message: self.message@ }
    }
}

pub enum ServerCommand {
    PrivMsg(MessageFrom),
    Ping(String),
    Unknown(String),
}

pub enum ClientCommand {
    Pong(String),
    Join(String),
    PrivMsg(MessageTo),
    Quit(String),
    Nick(String),
    User(String),
    Notice(MessageTo),
}

pub enum ServerCommandView {
    PrivMsg(MessageFromView),
    Ping(Seq<char>),
    Unknown(Seq<char>),
}

pub enum ClientCommandView {
    Pong(Seq<char>),
    Join(Seq<char>),
    PrivMsg(MessageToView),
    Quit(Seq<char>),
    Nick(Seq<char>),
    User(Seq<char>),
    Notice(MessageToView),
}

impl View for ServerCommand {
    type V = ServerCommandView;

    open spec fn view(&self) -> ServerCommandView {
        match self {
            ServerCommand::PrivMsg(m) => ServerCommandView::PrivMsg(m@),
            ServerCommand::Ping(t) => ServerCommandView::Ping(t@),
            ServerCommand::Unknown(l) => ServerCommandView::Unknown(l@),
        }
    }
}

impl View for ClientCommand {
    type V = ClientCommandView;

    open spec fn view(&self) -> ClientCommandView {
        match self {
            ClientCommand::Pong(t) => ClientCommandView::Pong(t@),
            ClientCommand::Join(c) => ClientCommandView::Join(c@),
            ClientCommand::PrivMsg(m) => ClientCommandView::PrivMsg(m@),
            ClientCommand::Quit(r) => ClientCommandView::Quit(r@),
            ClientCommand::Nick(n) => ClientCommandView::Nick(n@),
            ClientCommand::User(n) => ClientCommandView::User(n@),
            ClientCommand::Notice(m) => ClientCommandView::Notice(m@),
        }
    }
}

/// An inbound line carrying the server's liveness probe: `PING <token>`.
pub open spec fn spec_ping_line(line: Seq<char>) -> bool {
    match_at(line, "PING "@, 0)
}

pub open spec fn spec_ping_token(line: Seq<char>) -> Seq<char> {
    line.subrange("PING "@.len() as int, line.len() as int)
}

/// An inbound chat line `:<sender>!... PRIVMSG <target> :<text>`: the sender
/// stands between the leading colon and the first `!`, and the text follows
/// the first ` :` after the first ` PRIVMSG ` after that `!`.
pub open spec fn spec_parse_privmsg(line: Seq<char>) -> Option<MessageFromView> {
    if line.len() == 0 || line[0] != ':' {
        None
    } else {
        match find_from(line, "!"@, 1) {
            None => None,
            Some(b) => match find_from(line, " PRIVMSG "@, b + 1) {
                None => None,
                Some(p) => match find_from(line, " :"@, p + " PRIVMSG "@.len()) {
                    None => None,
                    Some(q) => Some(
                        MessageFromView {
                            sender: line.subrange(1, b),
                            message: line.subrange(q + " :"@.len(), line.len() as int),
                        },
                    ),
                },
            },
        }
    }
}

/// What one inbound line decodes to: a `PING`, a `PRIVMSG`, or an unknown
/// line kept verbatim.
pub open spec fn spec_decode_line(line: Seq<char>) -> ServerCommandView {
    if spec_ping_line(line) {
        ServerCommandView::Ping(spec_ping_token(line))
    } else {
        match spec_parse_privmsg(line) {
            Some(m) => ServerCommandView::PrivMsg(m),
            None => ServerCommandView::Unknown(line),
        }
    }
}

/// The exact CRLF-terminated wire line of each client command.
pub open spec fn spec_encode_command(c: ClientCommandView) -> Seq<char> {
    match c {
        ClientCommandView::Pong(t) => "PONG "@ + t + "\r\n"@,
        ClientCommandView::Join(ch) => "JOIN :"@ + ch + "\r\n"@,
        ClientCommandView::PrivMsg(m) => "PRIVMSG "@ + m.recipient + " :"@ + m.message + "\r\n"@,
        ClientCommandView::Quit(r) => "QUIT :"@ + r + "\r\n"@,
        ClientCommandView::Nick(n) => "NICK "@ + n + "\r\n"@,
        ClientCommandView::User(n) => "USER "@ + n + " 0 * "@ + n + "\r\n"@,
        ClientCommandView::Notice(m) => "NOTICE "@ + m.recipient + " :"@ + m.message + "\r\n"@,
    }
}

impl ServerCommand {
    /// Decodes one inbound line.
    pub fn decode(line: &str) -> (c: ServerCommand)
        ensures
            c@ == spec_decode_line(line@),
    {
        proof {
            reveal_strlit("PING ");
            reveal_strlit("!");
            reveal_strlit(" PRIVMSG ");
            reveal_strlit(" :");
        }
        let v = str_chars(line);
        let vlen = v.len();
        let ping = str_chars("PING ");
        if ping.len() <= vlen && matches_at(&v, &ping, 0) {
            let token = chars_to_string(&v, ping.len(), vlen);
            return ServerCommand::Ping(token);
        }
        proof {
            assert(!spec_ping_line(line@));
        }
        if vlen > 0 && v[0] == ':' {
            let bang = str_chars("!");
            if let Some(b) = find_pattern(&v, 1, &bang) {
                let privmsg_pat = str_chars(" PRIVMSG ");
                if let Some(p) = find_pattern(&v, b + 1, &privmsg_pat) {
                    let colon_pat = str_chars(" :");
                    if let Some(q) = find_pattern(&v, p + privmsg_pat.len(), &colon_pat) {
                        let sender = chars_to_string(&v, 1, b);
                        let message = chars_to_string(&v, q + colon_pat.len(), vlen);
                        return ServerCommand::PrivMsg(MessageFrom { sender, message });
                    }
                }
            }
        }
        ServerCommand::Unknown(line.to_owned())
    }
}

impl ClientCommand {
    /// Encodes the command to its exact wire line, CRLF included.
    pub fn encode(&self) -> (s: String)
        ensures
            s@ == spec_encode_command(self@),
    {
        let mut s: String;
        match self {
            ClientCommand::Pong(t) => {
                s = String::from_str("PONG ");
                s.append(t.as_str());
                s.append("\r\n");
            },
            ClientCommand::Join(ch) => {
                s = String::from_str("JOIN :");
                s.append(ch.as_str());
                s.append("\r\n");
            },
            ClientCommand::PrivMsg(m) => {
                s = String::from_str("PRIVMSG ");
                s.append(m.recipient.as_str());
                s.append(" :");
                s.append(m.message.as_str());
                s.append("\r\n");
            },
            ClientCommand::Quit(r) => {
                s = String::from_str("QUIT :");
                s.append(r.as_str());
                s.append("\r\n");
            },
            ClientCommand::Nick(n) => {
                s = String::from_str("NICK ");
                s.append(n.as_str());
                s.append("\r\n");
            },
            ClientCommand::User(n) => {
                s = String::from_str("USER ");
                s.append(n.as_str());
                s.append(" 0 * ");
                s.append(n.as_str());
                s.append("\r\n");
            },
            ClientCommand::Notice(m) => {
                s = String::from_str("NOTICE ");
                s.append(m.recipient.as_str());
                s.append(" :");
                s.append(m.message.as_str());
                s.append("\r\n");
            },
        }
        assert(s@ =~= spec_encode_command(self@));
        s
    }
}

} // verus!
