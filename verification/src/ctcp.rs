//! CTCP requests embedded in chat messages: framing, classification, and
//! reply generation.

use vstd::prelude::*;
use crate::command::{MessageFrom, MessageTo, MessageToView};
use crate::dcc::{Dcc, DccType, DccView, DccTypeView, spec_parse_dcc_send};
use crate::text::{match_at, str_chars, chars_to_string, matches_at};

verus! {

pub enum CtcpRequestType {
    ClientInfo,
    Dcc(DccType),
    Ping(String),
    Time,
    Version,
}

/// A recognized CTCP request and the nick that sent it.
pub struct CtcpRequest {
    pub sender: String,
    pub request_type: CtcpRequestType,
}

/// What a CTCP request calls for: a Notice back to the sender, or a DCC
/// offer surfaced to the caller.
pub enum CtcpReply {
    Message(MessageTo),
    Dcc(Dcc),
}

pub enum CtcpRequestTypeView {
    ClientInfo,
    Dcc(DccTypeView),
    Ping(Seq<char>),
    Time,
    Version,
}

pub struct CtcpRequestView {
    pub sender: Seq<char>,
    pub request_type: CtcpRequestTypeView,
}

pub enum CtcpReplyView {
    Message(MessageToView),
    Dcc(DccView),
}

impl View for CtcpRequestType {
    type V = CtcpRequestTypeView;

    open spec fn view(&self) -> CtcpRequestTypeView {
        match self {
            CtcpRequestType::ClientInfo => CtcpRequestTypeView::ClientInfo,
            CtcpRequestType::Dcc(d) => CtcpRequestTypeView::Dcc(d@),
            CtcpRequestType::Ping(p) => CtcpRequestTypeView::Ping(p@),
            CtcpRequestType::Time => CtcpRequestTypeView::Time,
            CtcpRequestType::Version => CtcpRequestTypeView::Version,
        }
    }
}

impl View for CtcpRequest {
    type V = CtcpRequestView;

    open spec fn view(&self) -> CtcpRequestView {
        CtcpRequestView { sender: self.sender@, request_type: self.request_type@ }
    }
}

impl View for CtcpReply {
    type V = CtcpReplyView;

    open spec fn view(&self) -> CtcpReplyView {
        match self {
            CtcpReply::Message(m) => CtcpReplyView::Message(m@),
            CtcpReply::Dcc(d) => CtcpReplyView::Dcc(d@),
        }
    }
}

/// A CTCP-framed text: wrapped in the 0x01 control character at both ends.
pub open spec fn spec_ctcp_framed(text: Seq<char>) -> bool {
    text.len() >= 2 && text[0] == '\u{1}' && text[text.len() - 1] == '\u{1}'
}

pub open spec fn spec_ctcp_payload(text: Seq<char>) -> Seq<char> {
    text.subrange(1, text.len() - 1)
}

/// Classification of a CTCP-framed text, tried in this order: VERSION,
/// PING, TIME, CLIENTINFO, then the DCC SEND grammar; anything else is not
/// a request.
pub open spec fn spec_parse_ctcp(text: Seq<char>) -> Option<CtcpRequestTypeView> {
    if !spec_ctcp_framed(text) {
        None
    } else {
        let p = spec_ctcp_payload(text);
        if p == "VERSION"@ {
            Some(CtcpRequestTypeView::Version)
        } else if match_at(p, "PING "@, 0) {
            Some(CtcpRequestTypeView::Ping(p.subrange("PING "@.len() as int, p.len() as int)))
        } else if p == "TIME"@ {
            Some(CtcpRequestTypeView::Time)
        } else if p == "CLIENTINFO"@ {
            Some(CtcpRequestTypeView::ClientInfo)
        } else {
            match spec_parse_dcc_send(p) {
                Some(s) => Some(CtcpRequestTypeView::Dcc(DccTypeView::Send(s))),
                None => None,
            }
        }
    }
}

impl CtcpRequestType {
    /// Classifies the text of a chat message as a CTCP request.
    pub fn parse(text: &str) -> (r: Option<CtcpRequestType>)
        ensures
            match r {
                Some(t) => spec_parse_ctcp(text@) == Some(t@),
                None => spec_parse_ctcp(text@) is None,
            },
    {
        proof {
            reveal_strlit("VERSION");
            reveal_strlit("PING ");
            reveal_strlit("TIME");
            reveal_strlit("CLIENTINFO");
        }
        let v = str_chars(text);
        let vlen = v.len();
        if vlen < 2 || v[0] != '\u{1}' || v[vlen - 1] != '\u{1}' {
            return None;
        }
        let ghost p = spec_ctcp_payload(text@);
        assert(p.len() == vlen - 2);
        let version = str_chars("VERSION");
        if vlen - 2 == version.len() && matches_at(&v, &version, 1) {
            assert(p =~= version@);
            return Some(CtcpRequestType::Version);
        }
        assert(p != "VERSION"@) by {
            if p == "VERSION"@ {
                assert(v@.subrange(1, 1 + version@.len() as int) =~= p);
            }
        }
        let ping = str_chars("PING ");
        if vlen - 2 >= ping.len() && matches_at(&v, &ping, 1) {
            assert(p.subrange(0, ping@.len() as int) =~= v@.subrange(
                1,
                1 + ping@.len() as int,
            ));
            let content = chars_to_string(&v, 1 + ping.len(), vlen - 1);
            assert(content@ =~= p.subrange("PING "@.len() as int, p.len() as int));
            return Some(CtcpRequestType::Ping(content));
        }
        assert(!match_at(p, "PING "@, 0)) by {
            if match_at(p, "PING "@, 0) {
                assert(v@.subrange(1, 1 + ping@.len() as int) =~= p.subrange(
                    0,
                    ping@.len() as int,
                ));
            }
        }
        let time = str_chars("TIME");
        if vlen - 2 == time.len() && matches_at(&v, &time, 1) {
            assert(p =~= time@);
            return Some(CtcpRequestType::Time);
        }
        assert(p != "TIME"@) by {
            if p == "TIME"@ {
                assert(v@.subrange(1, 1 + time@.len() as int) =~= p);
            }
        }
        let clientinfo = str_chars("CLIENTINFO");
        if vlen - 2 == clientinfo.len() && matches_at(&v, &clientinfo, 1) {
            assert(p =~= clientinfo@);
            return Some(CtcpRequestType::ClientInfo);
        }
        assert(p != "CLIENTINFO"@) by {
            if p == "CLIENTINFO"@ {
                assert(v@.subrange(1, 1 + clientinfo@.len() as int) =~= p);
            }
        }
        let payload = chars_to_string(&v, 1, vlen - 1);
        assert(payload@ =~= p);
        match DccType::parse(payload.as_str()) {
            Some(d) => Some(CtcpRequestType::Dcc(d)),
            None => None,
        }
    }
}

impl CtcpRequest {
    /// Classifies an inbound chat message; the request keeps the message's
    /// sender so a reply can be addressed.
    pub fn try_from_request(value: MessageFrom) -> (r: Option<CtcpRequest>)
        ensures
            match r {
                Some(req) => spec_parse_ctcp(value@.message) == Some(req@.request_type)
                    && req@.sender == value@.sender,
                None => spec_parse_ctcp(value@.message) is None,
            },
    {
        match CtcpRequestType::parse(value.message.as_str()) {
            Some(request_type) => Some(CtcpRequest { sender: value.sender, request_type }),
            None => None,
        }
    }
}

/// The reply owed to each CTCP request, with the TIME reply built from the
/// given clock text: every message reply goes back to the request's sender,
/// and a DCC request is surfaced as an offer instead of a message.
pub open spec fn spec_reply_at(req: CtcpRequestView, now: Seq<char>) -> CtcpReplyView {
    match req.request_type {
        CtcpRequestTypeView::ClientInfo => CtcpReplyView::Message(
            MessageToView {
                recipient: req.sender,
                message: "\u{1}CLIENTINFO ACTION CLIENTINFO DCC PING TIME VERSION\u{1}"@,
            },
        ),
        CtcpRequestTypeView::Ping(c) => CtcpReplyView::Message(
            MessageToView { recipient: req.sender, message: "\u{1}PING "@ + c + "\u{1}"@ },
        ),
        CtcpRequestTypeView::Time => CtcpReplyView::Message(
            MessageToView { recipient: req.sender, message: "\u{1}TIME "@ + now + "\u{1}"@ },
        ),
        CtcpRequestTypeView::Version => CtcpReplyView::Message(
            MessageToView {
                recipient: req.sender,
                message: "\u{1}VERSION RustIrcClient 0.1-dev\u{1}"@,
            },
        ),
        CtcpRequestTypeView::Dcc(d) => CtcpReplyView::Dcc(
            DccView { sender: req.sender, dcc_type: d },
        ),
    }
}

/// Relies on chrono's `Utc::now` and `DateTime::to_rfc2822` for the current
/// wall-clock time in RFC-2822 form; nothing is assumed of the result.
#[verifier::external_body]
fn now_rfc2822() -> (s: String) {
    chrono::Utc::now().to_rfc2822()
}

impl CtcpRequest {
    /// The reply owed to this request, with the TIME reply built from the
    /// given clock text.
    pub fn generate_reply_at(self, now: &str) -> (r: CtcpReply)
        ensures
            r@ == spec_reply_at(self@, now@),
    {
        let message: String;
        match self.request_type {
            CtcpRequestType::ClientInfo => {
                message = String::from_str(
                    "\u{1}CLIENTINFO ACTION CLIENTINFO DCC PING TIME VERSION\u{1}",
                );
            },
            CtcpRequestType::Ping(content) => {
                let mut m = String::from_str("\u{1}PING ");
                m.append(content.as_str());
                m.append("\u{1}");
                message = m;
            },
            CtcpRequestType::Time => {
                let mut m = String::from_str("\u{1}TIME ");
                m.append(now);
                m.append("\u{1}");
                message = m;
            },
            CtcpRequestType::Version => {
                message = String::from_str("\u{1}VERSION RustIrcClient 0.1-dev\u{1}");
            },
            CtcpRequestType::Dcc(dcc_type) => {
                return CtcpReply::Dcc(Dcc { sender: self.sender, dcc_type });
            },
        }
        CtcpReply::Message(MessageTo { recipient: self.sender, message })
    }

    /// The reply owed to this request, with the TIME reply read from the
    /// wall clock.
    pub fn generate_reply(self) -> (r: CtcpReply)
        ensures
            exists|now: Seq<char>| r@ == spec_reply_at(self@, now),
    {
        let now = now_rfc2822();
        let ghost n = now@;
        let r = self.generate_reply_at(now.as_str());
        proof {
            assert(r@ == spec_reply_at(self@, n));
        }
        r
    }
}

} // verus!
