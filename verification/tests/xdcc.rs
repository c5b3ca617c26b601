//! The XDCC command surface: case-insensitive parsing and exact rendering.

use xdcc_cli::xdcc::Xdcc;

#[test]
fn parse_send_lowercases_bot_and_keeps_number() {
    match Xdcc::parse("/msg CoolBot xdcc send #5") {
        Some(Xdcc::Send(bot, Some(5))) => assert_eq!(bot, "coolbot"),
        _ => panic!("expected Send with package 5"),
    }
}

#[test]
fn parse_send_minus_one_means_most_recent() {
    match Xdcc::parse("/msg Bot xdcc send -1") {
        Some(Xdcc::Send(bot, None)) => assert_eq!(bot, "bot"),
        _ => panic!("expected Send with no package"),
    }
}

#[test]
fn parse_send_list_means_no_package() {
    assert!(matches!(Xdcc::parse("/msg Bot xdcc send list"), Some(Xdcc::Send(_, None))));
}

#[test]
fn parse_get_is_send() {
    assert!(matches!(Xdcc::parse("/msg Bot XDCC GET #7"), Some(Xdcc::Send(_, Some(7)))));
}

#[test]
fn parse_send_without_hash_prefix() {
    assert!(matches!(Xdcc::parse("/msg bot xdcc send 12"), Some(Xdcc::Send(_, Some(12)))));
}

#[test]
fn parse_remove_bare_means_all() {
    match Xdcc::parse("/msg Bot xdcc remove") {
        Some(Xdcc::Remove(bot, None)) => assert_eq!(bot, "bot"),
        _ => panic!("expected Remove of everything"),
    }
}

#[test]
fn parse_remove_all() {
    assert!(matches!(Xdcc::parse("/msg Bot xdcc remove all"), Some(Xdcc::Remove(_, None))));
}

#[test]
fn parse_remove_with_number() {
    assert!(matches!(Xdcc::parse("/msg Bot xdcc remove #3"), Some(Xdcc::Remove(_, Some(3)))));
}

#[test]
fn parse_batch_preserves_order_and_hash_prefixes() {
    match Xdcc::parse("/msg Bot xdcc batch 1,#2,3") {
        Some(Xdcc::Batch(bot, ids)) => {
            assert_eq!(bot, "bot");
            assert_eq!(ids, vec![1, 2, 3]);
        },
        _ => panic!("expected a Batch"),
    }
}

#[test]
fn parse_batch_keeps_duplicates() {
    match Xdcc::parse("/msg b xdcc batch 2,2,9") {
        Some(Xdcc::Batch(_, ids)) => assert_eq!(ids, vec![2, 2, 9]),
        _ => panic!("expected a Batch"),
    }
}

#[test]
fn parse_info() {
    match Xdcc::parse("/msg Bot xdcc info #9") {
        Some(Xdcc::Info(bot, 9)) => assert_eq!(bot, "bot"),
        _ => panic!("expected Info of package 9"),
    }
}

#[test]
fn parse_cancel() {
    assert!(matches!(Xdcc::parse("/msg Bot xdcc cancel"), Some(Xdcc::Cancel(_))));
}

#[test]
fn parse_is_case_insensitive_on_the_verb() {
    assert!(matches!(Xdcc::parse("/MSG Bot XDCC SEND #5"), Some(Xdcc::Send(_, Some(5)))));
}

#[test]
fn parse_rejects_unrecognized_commands() {
    assert!(Xdcc::parse("hello there").is_none());
    assert!(Xdcc::parse("/msg bot xdcc flub").is_none());
    assert!(Xdcc::parse("/msg bot xdcc send").is_none());
    assert!(Xdcc::parse("/msg bot xdcc batch").is_none());
    assert!(Xdcc::parse("/msg bot xdcc batch 1,,2").is_none());
    assert!(Xdcc::parse("/msg bot xdcc send #x").is_none());
}

#[test]
fn parse_rejects_oversized_package_numbers() {
    assert!(Xdcc::parse("/msg bot xdcc send #4294967296").is_none());
    assert!(matches!(
        Xdcc::parse("/msg bot xdcc send #4294967295"),
        Some(Xdcc::Send(_, Some(4294967295)))
    ));
}

#[test]
fn recipient_names_the_bot() {
    let x = Xdcc::parse("/msg CoolBot xdcc send #5").unwrap();
    assert_eq!(x.recipient(), "coolbot");
    let c = Xdcc::Cancel("other".to_string());
    assert_eq!(c.recipient(), "other");
}

#[test]
fn message_for_cancel() {
    let m = Xdcc::Cancel("bot".to_string()).to_message();
    assert_eq!(m.recipient, "bot");
    assert_eq!(m.message, "xdcc cancel");
}

#[test]
fn message_for_send() {
    let m = Xdcc::Send("bot".to_string(), Some(5)).to_message();
    assert_eq!(m.message, "xdcc send #5");
    let m = Xdcc::Send("bot".to_string(), None).to_message();
    assert_eq!(m.message, "xdcc send -1");
}

#[test]
fn message_for_info() {
    let m = Xdcc::Info("bot".to_string(), 3).to_message();
    assert_eq!(m.message, "xdcc info #3");
}

#[test]
fn message_for_batch_joins_with_commas() {
    let m = Xdcc::Batch("bot".to_string(), vec![1, 2, 3]).to_message();
    assert_eq!(m.message, "xdcc batch 1,2,3");
    let m = Xdcc::Batch("bot".to_string(), vec![7]).to_message();
    assert_eq!(m.message, "xdcc batch 7");
}

#[test]
fn message_for_remove() {
    let m = Xdcc::Remove("bot".to_string(), Some(4)).to_message();
    assert_eq!(m.message, "xdcc remove #4");
    let m = Xdcc::Remove("bot".to_string(), None).to_message();
    assert_eq!(m.message, "xdcc remove all");
}
