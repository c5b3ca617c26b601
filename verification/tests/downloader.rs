//! The orchestrator's liveness policy, the session decision functions, and
//! two end-to-end scenarios over the verified core.

use xdcc_cli::command::ServerCommand;
use xdcc_cli::dcc::{DccType, TransferProgress};
use xdcc_cli::downloader::{
    calculate_total_downloads, DownloadAction, DownloadError, DownloadEvent, DownloadState,
    ReportCounter,
};
use xdcc_cli::session::{
    handle_active_event, handle_join_event, handle_login_event, join_command, login_commands,
    quit_command, xdcc_request_command,
};
use xdcc_cli::xdcc::Xdcc;

fn idle_timeout() -> DownloadEvent {
    DownloadEvent::Timeout { transfer_active: false }
}

fn busy_timeout() -> DownloadEvent {
    DownloadEvent::Timeout { transfer_active: true }
}

#[test]
fn total_is_one_for_send() {
    let send = Xdcc::Send("bot".to_string(), Some(3));
    assert_eq!(calculate_total_downloads(&send), Ok(1));
    let recent = Xdcc::Send("bot".to_string(), None);
    assert_eq!(calculate_total_downloads(&recent), Ok(1));
}

#[test]
fn total_counts_batch_duplicates() {
    let batch = Xdcc::Batch("bot".to_string(), vec![2, 2, 9]);
    assert_eq!(calculate_total_downloads(&batch), Ok(3));
}

#[test]
fn total_rejects_other_kinds_before_any_network_call() {
    for bad in [
        Xdcc::Cancel("bot".to_string()),
        Xdcc::Info("bot".to_string(), 1),
        Xdcc::Remove("bot".to_string(), None),
    ] {
        assert_eq!(calculate_total_downloads(&bad), Err(DownloadError::UnsupportedRequest));
        assert!(DownloadState::new(&bad).is_err());
    }
}

#[test]
fn single_idle_timeout_only_arms_the_flag() {
    let mut st = DownloadState::new(&Xdcc::Send("bot".to_string(), Some(1))).unwrap();
    assert!(!st.quit_on_next_timeout);
    assert_eq!(st.step(idle_timeout()), DownloadAction::Wait);
    assert!(st.quit_on_next_timeout);
}

#[test]
fn second_consecutive_idle_timeout_is_fatal() {
    let mut st = DownloadState::new(&Xdcc::Send("bot".to_string(), Some(1))).unwrap();
    assert_eq!(st.step(idle_timeout()), DownloadAction::Wait);
    assert_eq!(st.step(idle_timeout()), DownloadAction::Fail(DownloadError::Timeout));
}

#[test]
fn arriving_offer_resets_the_flag() {
    let mut st = DownloadState::new(&Xdcc::Batch("bot".to_string(), vec![1, 2])).unwrap();
    assert_eq!(st.step(idle_timeout()), DownloadAction::Wait);
    assert_eq!(st.step(DownloadEvent::Offer), DownloadAction::AcceptOffer);
    assert!(!st.quit_on_next_timeout);
    assert_eq!(st.step(idle_timeout()), DownloadAction::Wait);
    assert_eq!(st.step(idle_timeout()), DownloadAction::Fail(DownloadError::Timeout));
}

#[test]
fn timeout_with_active_transfer_resets_the_flag() {
    let mut st = DownloadState::new(&Xdcc::Send("bot".to_string(), None)).unwrap();
    assert_eq!(st.step(idle_timeout()), DownloadAction::Wait);
    assert_eq!(st.step(busy_timeout()), DownloadAction::Wait);
    assert!(!st.quit_on_next_timeout);
    assert_eq!(st.step(idle_timeout()), DownloadAction::Wait);
    assert_eq!(st.step(idle_timeout()), DownloadAction::Fail(DownloadError::Timeout));
}

#[test]
fn closed_stream_is_always_fatal() {
    let mut st = DownloadState::new(&Xdcc::Send("bot".to_string(), Some(1))).unwrap();
    assert_eq!(st.step(DownloadEvent::Closed), DownloadAction::Fail(DownloadError::ConnectionClosed));
}

#[test]
fn error_messages_are_fixed() {
    assert_eq!(DownloadError::Timeout.message(), "Timed out waiting for packages!");
    assert_eq!(
        DownloadError::ConnectionClosed.message(),
        "Connection closed before all packages were downloaded!"
    );
    assert_eq!(DownloadError::UnsupportedRequest.message(), "Only SEND and BATCH are supported!");
}

#[test]
fn login_sends_nick_then_user_and_first_ping_completes() {
    let (nick, user) = login_commands("me");
    assert_eq!(nick.encode(), "NICK me\r\n");
    assert_eq!(user.encode(), "USER me 0 * me\r\n");
    let (action, done) = handle_login_event(ServerCommand::decode(":x!y PRIVMSG me :hi"));
    assert!(action.is_none());
    assert!(!done);
    let (action, done) = handle_login_event(ServerCommand::decode("PING 42"));
    assert_eq!(action.unwrap().encode(), "PONG 42\r\n");
    assert!(done);
}

#[test]
fn join_answers_pings_and_completes_on_ctcp_version() {
    assert_eq!(join_command("#place".to_string()).encode(), "JOIN :#place\r\n");
    let (action, done) = handle_join_event(ServerCommand::decode("PING x"));
    assert_eq!(action.unwrap().encode(), "PONG x\r\n");
    assert!(!done);
    let (action, done) =
        handle_join_event(ServerCommand::decode(":srv!s PRIVMSG me :\u{1}VERSION\u{1}"));
    assert_eq!(
        action.unwrap().encode(),
        "NOTICE srv :\u{1}VERSION RustIrcClient 0.1-dev\u{1}\r\n"
    );
    assert!(done);
}

#[test]
fn quit_sends_fixed_farewell() {
    assert_eq!(quit_command().encode(), "QUIT :Goodbye\r\n");
}

#[test]
fn active_phase_answers_pings_and_non_dcc_requests() {
    let (action, offer) = handle_active_event(ServerCommand::decode("PING t"));
    assert_eq!(action.unwrap().encode(), "PONG t\r\n");
    assert!(offer.is_none());
    let (action, offer) =
        handle_active_event(ServerCommand::decode(":b!c PRIVMSG me :\u{1}PING 9\u{1}"));
    assert_eq!(action.unwrap().encode(), "NOTICE b :\u{1}PING 9\u{1}\r\n");
    assert!(offer.is_none());
    let (action, offer) = handle_active_event(ServerCommand::decode(":b!c PRIVMSG me :chat"));
    assert!(action.is_none());
    assert!(offer.is_none());
}

#[test]
fn send_scenario_downloads_and_reports_once() {
    // The user asks for package 3; the request goes out as one chat line.
    let request = Xdcc::parse("/msg Bot xdcc send #3").unwrap();
    let mut st = DownloadState::new(&request).unwrap();
    assert_eq!(st.total_downloads, 1);
    let line = xdcc_request_command(request).encode();
    assert_eq!(line, "PRIVMSG bot :xdcc send #3\r\n");

    // The bot replies with a well-formed offer within the timeout.
    let inbound =
        ServerCommand::decode(":bot!b@h PRIVMSG me :\u{1}DCC SEND \"file name\" 3232235777 6667 11\u{1}");
    let (action, offer) = handle_active_event(inbound);
    assert!(action.is_none());
    let dcc = offer.unwrap();
    assert_eq!(dcc.sender, "bot");
    let DccType::Send(send) = dcc.dcc_type;
    assert_eq!(send.ip_string(), "192.168.1.1");
    assert_eq!(send.port, 6667);

    // The orchestrator accepts it and the receiver downloads exactly the
    // declared number of bytes.
    assert_eq!(st.step(DownloadEvent::Offer), DownloadAction::AcceptOffer);
    assert!(st.is_complete());
    let mut progress = TransferProgress::new(send.file_size);
    assert!(!progress.record_bytes(4));
    assert!(progress.record_bytes(7));

    // The normalized filename is reported exactly once.
    assert_eq!(send.normalized_filename(), "file_name");
    let mut reports = ReportCounter::new(st.total_downloads);
    assert!(reports.record());
    assert!(reports.is_done());
}

#[test]
fn batch_scenario_times_out_after_one_offer() {
    // Batch of two packages, but the bot only ever sends one offer.
    let request = Xdcc::parse("/msg Bot xdcc batch #1,#2").unwrap();
    let mut st = DownloadState::new(&request).unwrap();
    assert_eq!(st.total_downloads, 2);

    assert_eq!(st.step(DownloadEvent::Offer), DownloadAction::AcceptOffer);
    assert!(!st.is_complete());

    // Two liveness timeouts elapse with nothing in flight: the run fails.
    assert_eq!(st.step(idle_timeout()), DownloadAction::Wait);
    assert_eq!(st.step(idle_timeout()), DownloadAction::Fail(DownloadError::Timeout));
    assert_eq!(st.handled_downloads, 1);
}
