//! The session controller's decisions: which commands open, advance and
//! close the login/join/active phases, and how each inbound command is
//! answered. The surrounding task that reads and writes the queues only
//! performs what these functions decide.

use vstd::prelude::*;
use crate::command::{ServerCommand, ClientCommand, ServerCommandView, ClientCommandView,
    MessageToView};
use crate::ctcp::{CtcpRequest, CtcpReply, CtcpRequestType, CtcpRequestView, CtcpRequestTypeView,
    CtcpReplyView, spec_parse_ctcp, spec_reply_at};
use crate::dcc::{Dcc, DccView};
use crate::xdcc::{Xdcc, spec_recipient, spec_xdcc_message};

verus! {

pub open spec fn opt_cmd_view(o: Option<ClientCommand>) -> Option<ClientCommandView> {
    match o {
        Some(c) => Some(c@),
        None => None,
    }
}

pub open spec fn opt_dcc_view(o: Option<Dcc>) -> Option<DccView> {
    match o {
        Some(d) => Some(d@),
        None => None,
    }
}

/// Logging in sends the nickname twice: as NICK and as USER.
pub fn login_commands(nickname: &str) -> (r: (ClientCommand, ClientCommand))
    ensures
        r.0@ == ClientCommandView::Nick(nickname@),
        r.1@ == ClientCommandView::User(nickname@),
{
    (ClientCommand::Nick(nickname.to_owned()), ClientCommand::User(nickname.to_owned()))
}

/// Joining sends one JOIN for the channel.
pub fn join_command(channel: String) -> (r: ClientCommand)
    ensures
        r@ == ClientCommandView::Join(channel@),
{
    ClientCommand::Join(channel)
}

/// Quitting sends one fixed farewell.
pub fn quit_command() -> (r: ClientCommand)
    ensures
        r@ == ClientCommandView::Quit("Goodbye"@),
{
    ClientCommand::Quit(String::from_str("Goodbye"))
}

/// An XDCC request goes out as a chat message to its bot.
pub fn xdcc_request_command(request: Xdcc) -> (r: ClientCommand)
    ensures
        r@ == ClientCommandView::PrivMsg(
            MessageToView {
                recipient: spec_recipient(request@),
                message: spec_xdcc_message(request@),
            },
        ),
{
    ClientCommand::PrivMsg(request.to_message())
}

/// While logging in, the first Ping is answered and completes the phase;
/// everything else is consumed silently.
pub open spec fn spec_login_action(cmd: ServerCommandView) -> Option<ClientCommandView> {
    match cmd {
        ServerCommandView::Ping(t) => Some(ClientCommandView::Pong(t)),
        _ => None,
    }
}

pub open spec fn spec_login_done(cmd: ServerCommandView) -> bool {
    cmd is Ping
}

pub fn handle_login_event(cmd: ServerCommand) -> (r: (Option<ClientCommand>, bool))
    ensures
        opt_cmd_view(r.0) == spec_login_action(cmd@),
        r.1 == spec_login_done(cmd@),
{
    match cmd {
        ServerCommand::Ping(t) => (Some(ClientCommand::Pong(t)), true),
        _ => (None, false),
    }
}

/// While joining, Pings are answered; a CTCP VERSION request is answered
/// with a Notice and completes the phase; everything else is consumed
/// silently.
pub open spec fn spec_join_action(cmd: ServerCommandView) -> Option<ClientCommandView> {
    match cmd {
        ServerCommandView::Ping(t) => Some(ClientCommandView::Pong(t)),
        ServerCommandView::PrivMsg(m) => {
            if spec_parse_ctcp(m.message) == Some(CtcpRequestTypeView::Version) {
                Some(
                    ClientCommandView::Notice(
                        MessageToView {
                            recipient: m.sender,
                            message: "\u{1}VERSION RustIrcClient 0.1-dev\u{1}"@,
                        },
                    ),
                )
            } else {
                None
            }
        },
        _ => None,
    }
}

pub open spec fn spec_join_done(cmd: ServerCommandView) -> bool {
    cmd matches ServerCommandView::PrivMsg(m) && spec_parse_ctcp(m.message) == Some(
        CtcpRequestTypeView::Version,
    )
}

pub fn handle_join_event(cmd: ServerCommand) -> (r: (Option<ClientCommand>, bool))
    ensures
        opt_cmd_view(r.0) == spec_join_action(cmd@),
        r.1 == spec_join_done(cmd@),
{
    match cmd {
        ServerCommand::Ping(t) => (Some(ClientCommand::Pong(t)), false),
        ServerCommand::PrivMsg(m) => {
            match CtcpRequest::try_from_request(m) {
                Some(req) => {
                    if let CtcpRequestType::Version = &req.request_type {
                        let reply = req.generate_reply_at("");
                        match reply {
                            CtcpReply::Message(mt) => (Some(ClientCommand::Notice(mt)), true),
                            CtcpReply::Dcc(_) => {
                                assert(false);
                                (None, false)
                            },
                        }
                    } else {
                        (None, false)
                    }
                },
                None => (None, false),
            }
        },
        ServerCommand::Unknown(_) => (None, false),
    }
}

/// In the active phase, a chat message whose CTCP request is a DCC offer is
/// surfaced to the caller; there is never both a reply and an offer.
pub open spec fn spec_active_offer(cmd: ServerCommandView) -> Option<DccView> {
    match cmd {
        ServerCommandView::PrivMsg(m) => match spec_parse_ctcp(m.message) {
            Some(CtcpRequestTypeView::Dcc(d)) => Some(DccView { sender: m.sender, dcc_type: d }),
            _ => None,
        },
        _ => None,
    }
}

/// The action/offer pair a CTCP reply calls for: a message reply goes out
/// as a Notice, a DCC reply is surfaced as the offer.
pub open spec fn spec_reply_outcome(
    reply: CtcpReplyView,
    action: Option<ClientCommandView>,
    offer: Option<DccView>,
) -> bool {
    match reply {
        CtcpReplyView::Message(mt) => action == Some(ClientCommandView::Notice(mt))
            && offer is None,
        CtcpReplyView::Dcc(d) => action is None && offer == Some(d),
    }
}

/// In the active phase: a Ping is answered with its Pong; a recognized
/// non-DCC CTCP request is answered with the Notice that `spec_reply_at`
/// gives it (the TIME reply under some clock text); a DCC request is
/// surfaced and nothing is sent; everything else is consumed silently.
pub open spec fn spec_active_response(
    cmd: ServerCommandView,
    action: Option<ClientCommandView>,
    offer: Option<DccView>,
) -> bool {
    match cmd {
        ServerCommandView::Ping(t) => action == Some(ClientCommandView::Pong(t)) && offer is None,
        ServerCommandView::PrivMsg(m) => match spec_parse_ctcp(m.message) {
            None => action is None && offer is None,
            Some(rt) => exists|now: Seq<char>|
                spec_reply_outcome(
                    #[trigger] spec_reply_at(
                        CtcpRequestView { sender: m.sender, request_type: rt },
                        now,
                    ),
                    action,
                    offer,
                ),
        },
        ServerCommandView::Unknown(_) => action is None && offer is None,
    }
}

pub fn handle_active_event(cmd: ServerCommand) -> (r: (Option<ClientCommand>, Option<Dcc>))
    ensures
        spec_active_response(cmd@, opt_cmd_view(r.0), opt_dcc_view(r.1)),
        opt_dcc_view(r.1) == spec_active_offer(cmd@),
{
    match cmd {
        ServerCommand::Ping(t) => (Some(ClientCommand::Pong(t)), None),
        ServerCommand::PrivMsg(m) => {
            let ghost mv = m@;
            match CtcpRequest::try_from_request(m) {
                Some(req) => {
                    let ghost reqv = req@;
                    let reply = req.generate_reply();
                    let ghost now = choose|n: Seq<char>| reply@ == spec_reply_at(reqv, n);
                    match reply {
                        CtcpReply::Message(mt) => {
                            let r = (Some(ClientCommand::Notice(mt)), None::<Dcc>);
                            proof {
                                assert(spec_reply_at(reqv, now) is Message);
                                assert(spec_active_response(
                                    ServerCommandView::PrivMsg(mv),
                                    opt_cmd_view(r.0),
                                    opt_dcc_view(r.1),
                                ));
                            }
                            r
                        },
                        CtcpReply::Dcc(d) => {
                            let r = (None::<ClientCommand>, Some(d));
                            proof {
                                assert(spec_reply_at(reqv, now) is Dcc);
                                assert(spec_active_response(
                                    ServerCommandView::PrivMsg(mv),
                                    opt_cmd_view(r.0),
                                    opt_dcc_view(r.1),
                                ));
                            }
                            r
                        },
                    }
                },
                None => (None, None),
            }
        },
        ServerCommand::Unknown(_) => (None, None),
    }
}

} // verus!
