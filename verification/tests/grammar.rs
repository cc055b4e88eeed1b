use whatsapp_cli::assemble::{DEFAULT_COUNT, DEFAULT_LIMIT};
use whatsapp_cli::ast::{
    ChatOrder, ChatsQuery, Command, DownloadRequest, GrammarError, MiscAction, SendRequest,
    SessionAction,
};
use whatsapp_cli::parser::parse;

fn args(raw: &[&str]) -> Vec<String> {
    raw.iter().map(|s| s.to_string()).collect()
}

fn s(t: &str) -> String {
    t.to_string()
}

#[test]
fn conflict_chronological_alphabetical() {
    let r = parse(&args(&["chats", "list", "--chronological-order", "--alphabetical-order"]));
    assert_eq!(
        r,
        Err(GrammarError::ConflictingFlags(
            s("--chronological-order"),
            s("--alphabetical-order")
        ))
    );
}

#[test]
fn conflict_reverse_alphabetical() {
    let r = parse(&args(&[
        "chats",
        "list",
        "--reverse-chronological-order",
        "--alphabetical-order",
    ]));
    assert_eq!(
        r,
        Err(GrammarError::ConflictingFlags(
            s("--reverse-chronological-order"),
            s("--alphabetical-order")
        ))
    );
}

#[test]
fn conflict_all_three() {
    let r = parse(&args(&[
        "chats",
        "list",
        "--chronological-order",
        "--reverse-chronological-order",
        "--alphabetical-order",
    ]));
    assert!(matches!(r, Err(GrammarError::ConflictingFlags(_, _))));
}

#[test]
fn default_order_reverse_chronological() {
    let r = parse(&args(&["chats", "list"])).unwrap();
    assert!(!r.verbose);
    assert_eq!(r.config, None);
    assert_eq!(
        r.command,
        Command::Chats(ChatsQuery::List {
            details: false,
            limit: DEFAULT_LIMIT,
            order: ChatOrder::ReverseChronological,
        })
    );
}

#[test]
fn single_order_flag_kept() {
    let r = parse(&args(&["chats", "list", "--alphabetical-order", "--details"])).unwrap();
    assert_eq!(
        r.command,
        Command::Chats(ChatsQuery::List {
            details: true,
            limit: DEFAULT_LIMIT,
            order: ChatOrder::Alphabetical,
        })
    );
}

#[test]
fn numeric_rejects_negative() {
    let r = parse(&args(&["chats", "list", "--limit", "-5"]));
    assert_eq!(r, Err(GrammarError::InvalidNumber(s("-5"))));
}

#[test]
fn numeric_rejects_non_numeric() {
    let r = parse(&args(&["chats", "print", "bob", "--count", "abc"]));
    assert_eq!(r, Err(GrammarError::InvalidNumber(s("abc"))));
}

#[test]
fn numeric_rejects_overflow() {
    let r = parse(&args(&["chats", "list", "--limit", "99999999999999999999999999"]));
    assert_eq!(
        r,
        Err(GrammarError::InvalidNumber(s("99999999999999999999999999")))
    );
}

#[test]
fn numeric_rejects_empty() {
    let r = parse(&args(&["misc", "search", "q", "--limit", ""]));
    assert_eq!(r, Err(GrammarError::InvalidNumber(s(""))));
}

#[test]
fn numeric_accepts_zero() {
    let r = parse(&args(&["chats", "print", "t", "--count", "0"])).unwrap();
    assert_eq!(
        r.command,
        Command::Chats(ChatsQuery::Print {
            target: s("t"),
            count: 0,
            timestamps: false,
        })
    );
}

#[test]
fn numeric_last_value_wins() {
    let r = parse(&args(&["chats", "list", "--limit", "1", "--limit", "2"])).unwrap();
    assert_eq!(
        r.command,
        Command::Chats(ChatsQuery::List {
            details: false,
            limit: 2,
            order: ChatOrder::ReverseChronological,
        })
    );
}

#[test]
fn flag_like_token_in_value_position_is_a_value() {
    let r = parse(&args(&["chats", "list", "--limit", "--alphabetical-order"]));
    assert_eq!(
        r,
        Err(GrammarError::InvalidNumber(s("--alphabetical-order")))
    );
}

#[test]
fn send_without_message() {
    let r = parse(&args(&["send", "bob"])).unwrap();
    assert_eq!(
        r.command,
        Command::Send(SendRequest {
            to: s("bob"),
            message: None,
            attach: None,
            at: None,
        })
    );
}

#[test]
fn send_with_message() {
    let r = parse(&args(&["send", "TO", "hello"])).unwrap();
    assert_eq!(
        r.command,
        Command::Send(SendRequest {
            to: s("TO"),
            message: Some(s("hello")),
            attach: None,
            at: None,
        })
    );
}

#[test]
fn send_with_attach_and_at() {
    let r = parse(&args(&[
        "send",
        "bob",
        "hi",
        "--attach",
        "pic.png",
        "--at",
        "2024-05-01T10:00:00Z",
    ]))
    .unwrap();
    assert_eq!(
        r.command,
        Command::Send(SendRequest {
            to: s("bob"),
            message: Some(s("hi")),
            attach: Some(s("pic.png")),
            at: Some(s("2024-05-01T10:00:00Z")),
        })
    );
}

#[test]
fn download_default_out() {
    let r = parse(&args(&["download", "ABC123"])).unwrap();
    assert_eq!(
        r.command,
        Command::Download(DownloadRequest {
            attachment_id: s("ABC123"),
            out: s("."),
        })
    );
}

#[test]
fn download_explicit_out() {
    let r = parse(&args(&["download", "ABC123", "--out", "/tmp/media"])).unwrap();
    assert_eq!(
        r.command,
        Command::Download(DownloadRequest {
            attachment_id: s("ABC123"),
            out: s("/tmp/media"),
        })
    );
}

#[test]
fn chats_print_count_and_timestamps() {
    let r = parse(&args(&["chats", "print", "alice", "--count", "10", "--timestamps"])).unwrap();
    assert_eq!(
        r.command,
        Command::Chats(ChatsQuery::Print {
            target: s("alice"),
            count: 10,
            timestamps: true,
        })
    );
}

#[test]
fn chats_print_default_count() {
    let r = parse(&args(&["chats", "print", "alice"])).unwrap();
    assert_eq!(
        r.command,
        Command::Chats(ChatsQuery::Print {
            target: s("alice"),
            count: DEFAULT_COUNT,
            timestamps: false,
        })
    );
}

#[test]
fn chats_info_archive_unarchive() {
    let r = parse(&args(&["chats", "info", "g1"])).unwrap();
    assert_eq!(r.command, Command::Chats(ChatsQuery::Info { target: s("g1") }));
    let r = parse(&args(&["chats", "archive", "g2"])).unwrap();
    assert_eq!(r.command, Command::Chats(ChatsQuery::Archive { target: s("g2") }));
    let r = parse(&args(&["chats", "unarchive", "g3"])).unwrap();
    assert_eq!(
        r.command,
        Command::Chats(ChatsQuery::Unarchive { target: s("g3") })
    );
}

#[test]
fn session_actions() {
    for (w, a) in [
        ("login", SessionAction::Login),
        ("logout", SessionAction::Logout),
        ("status", SessionAction::Status),
    ] {
        let r = parse(&args(&["session", w])).unwrap();
        assert_eq!(r.command, Command::Session(a));
    }
}

#[test]
fn misc_search_default_limit() {
    let r = parse(&args(&["misc", "search", "groceries"])).unwrap();
    assert_eq!(
        r.command,
        Command::Misc(MiscAction::Search {
            query: s("groceries"),
            limit: DEFAULT_LIMIT,
        })
    );
}

#[test]
fn misc_export_default_format() {
    let r = parse(&args(&["misc", "export", "family"])).unwrap();
    assert_eq!(
        r.command,
        Command::Misc(MiscAction::Export {
            target: s("family"),
            format: s("json"),
        })
    );
}

#[test]
fn misc_contacts_details() {
    let r = parse(&args(&["misc", "contacts", "--details"])).unwrap();
    assert_eq!(r.command, Command::Misc(MiscAction::Contacts { details: true }));
}

#[test]
fn global_flags() {
    let r = parse(&args(&["--verbose", "--config", "alt.toml", "session", "status"])).unwrap();
    assert!(r.verbose);
    assert_eq!(r.config, Some(s("alt.toml")));
    assert_eq!(r.command, Command::Session(SessionAction::Status));
}

#[test]
fn empty_invocation_is_missing_command() {
    assert_eq!(parse(&args(&[])), Err(GrammarError::MissingCommand));
}

#[test]
fn missing_subcommand() {
    assert_eq!(parse(&args(&["chats"])), Err(GrammarError::MissingCommand));
    assert_eq!(parse(&args(&["misc"])), Err(GrammarError::MissingCommand));
}

#[test]
fn unknown_command() {
    assert_eq!(
        parse(&args(&["frobnicate"])),
        Err(GrammarError::UnknownCommand(s("frobnicate")))
    );
    assert_eq!(
        parse(&args(&["chats", "prune"])),
        Err(GrammarError::UnknownCommand(s("prune")))
    );
}

#[test]
fn unknown_flag() {
    assert_eq!(
        parse(&args(&["chats", "list", "--frob"])),
        Err(GrammarError::UnknownFlag(s("--frob")))
    );
    assert_eq!(
        parse(&args(&["send", "bob", "--timestamps"])),
        Err(GrammarError::UnknownFlag(s("--timestamps")))
    );
    assert_eq!(
        parse(&args(&["--bogus", "chats", "list"])),
        Err(GrammarError::UnknownFlag(s("--bogus")))
    );
}

#[test]
fn missing_value() {
    assert_eq!(
        parse(&args(&["chats", "list", "--limit"])),
        Err(GrammarError::MissingValue(s("--limit")))
    );
    assert_eq!(
        parse(&args(&["--config"])),
        Err(GrammarError::MissingValue(s("--config")))
    );
}

#[test]
fn missing_argument() {
    assert_eq!(
        parse(&args(&["send"])),
        Err(GrammarError::MissingArgument(s("TO")))
    );
    assert_eq!(
        parse(&args(&["download"])),
        Err(GrammarError::MissingArgument(s("ATTACHMENT_ID")))
    );
    assert_eq!(
        parse(&args(&["chats", "print"])),
        Err(GrammarError::MissingArgument(s("TARGET")))
    );
    assert_eq!(
        parse(&args(&["misc", "search"])),
        Err(GrammarError::MissingArgument(s("QUERY")))
    );
}

#[test]
fn unexpected_argument() {
    assert_eq!(
        parse(&args(&["session", "login", "extra"])),
        Err(GrammarError::UnexpectedArgument(s("extra")))
    );
    assert_eq!(
        parse(&args(&["send", "a", "b", "c"])),
        Err(GrammarError::UnexpectedArgument(s("c")))
    );
}
