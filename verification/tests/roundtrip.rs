use whatsapp_cli::ast::{
    ChatOrder, ChatsQuery, Command, DownloadRequest, Invocation, MiscAction, SendRequest,
    SessionAction,
};
use whatsapp_cli::canonical::canonical_args;
use whatsapp_cli::client::WwebJsClient;
use whatsapp_cli::dispatch::{handler_for, needs_stdin, resolve_send_body, Handler};
use whatsapp_cli::num::{dec_string, parse_dec};
use whatsapp_cli::parser::parse;

fn s(t: &str) -> String {
    t.to_string()
}

fn roundtrip(inv: &Invocation) {
    let re = parse(&canonical_args(inv)).unwrap();
    assert_eq!(&re, inv);
}

#[test]
fn roundtrip_list() {
    roundtrip(&Invocation {
        verbose: true,
        config: Some(s("conf.toml")),
        command: Command::Chats(ChatsQuery::List {
            details: true,
            limit: 7,
            order: ChatOrder::Alphabetical,
        }),
    });
    roundtrip(&Invocation {
        verbose: false,
        config: None,
        command: Command::Chats(ChatsQuery::List {
            details: false,
            limit: 50,
            order: ChatOrder::ReverseChronological,
        }),
    });
}

#[test]
fn roundtrip_print_and_info() {
    roundtrip(&Invocation {
        verbose: false,
        config: None,
        command: Command::Chats(ChatsQuery::Print {
            target: s("alice"),
            count: 10,
            timestamps: true,
        }),
    });
    roundtrip(&Invocation {
        verbose: true,
        config: None,
        command: Command::Chats(ChatsQuery::Info { target: s("g1") }),
    });
}

#[test]
fn roundtrip_send() {
    roundtrip(&Invocation {
        verbose: false,
        config: None,
        command: Command::Send(SendRequest {
            to: s("bob"),
            message: None,
            attach: None,
            at: None,
        }),
    });
    roundtrip(&Invocation {
        verbose: false,
        config: Some(s("c")),
        command: Command::Send(SendRequest {
            to: s("bob"),
            message: Some(s("hello there")),
            attach: Some(s("pic.png")),
            at: Some(s("2024-05-01T10:00:00Z")),
        }),
    });
}

#[test]
fn roundtrip_download_session_misc() {
    roundtrip(&Invocation {
        verbose: false,
        config: None,
        command: Command::Download(DownloadRequest {
            attachment_id: s("ABC123"),
            out: s("."),
        }),
    });
    roundtrip(&Invocation {
        verbose: true,
        config: None,
        command: Command::Session(SessionAction::Logout),
    });
    roundtrip(&Invocation {
        verbose: false,
        config: None,
        command: Command::Misc(MiscAction::Search {
            query: s("rent"),
            limit: 3,
        }),
    });
    roundtrip(&Invocation {
        verbose: false,
        config: None,
        command: Command::Misc(MiscAction::Export {
            target: s("family"),
            format: s("csv"),
        }),
    });
    roundtrip(&Invocation {
        verbose: false,
        config: None,
        command: Command::Misc(MiscAction::Contacts { details: true }),
    });
}

#[test]
fn canonical_form_is_explicit() {
    let v = canonical_args(&Invocation {
        verbose: true,
        config: Some(s("c.toml")),
        command: Command::Chats(ChatsQuery::List {
            details: false,
            limit: 50,
            order: ChatOrder::ReverseChronological,
        }),
    });
    assert_eq!(
        v,
        vec![
            s("--verbose"),
            s("--config"),
            s("c.toml"),
            s("chats"),
            s("list"),
            s("--limit"),
            s("50"),
            s("--reverse-chronological-order"),
        ]
    );
}

#[test]
fn send_empty_stdin_gives_empty_body() {
    let inv = parse(&vec![s("send"), s("bob")]).unwrap();
    match &inv.command {
        Command::Send(req) => {
            assert!(needs_stdin(&inv.command));
            let body = resolve_send_body(req, String::new());
            assert_eq!(body, s(""));
        }
        _ => panic!("expected a send command"),
    }
}

#[test]
fn send_message_argument_beats_stdin() {
    let inv = parse(&vec![s("send"), s("bob"), s("hi")]).unwrap();
    match &inv.command {
        Command::Send(req) => {
            assert!(!needs_stdin(&inv.command));
            let body = resolve_send_body(req, s("ignored stream text"));
            assert_eq!(body, s("hi"));
        }
        _ => panic!("expected a send command"),
    }
}

#[test]
fn handlers_are_a_pure_mapping() {
    let cases = [
        (vec![s("chats"), s("list")], Handler::ListChats),
        (vec![s("chats"), s("print"), s("a")], Handler::FetchMessages),
        (vec![s("chats"), s("info"), s("a")], Handler::ChatInfo),
        (vec![s("chats"), s("archive"), s("a")], Handler::ArchiveChat),
        (vec![s("chats"), s("unarchive"), s("a")], Handler::UnarchiveChat),
        (vec![s("send"), s("b"), s("m")], Handler::SendMessage),
        (vec![s("download"), s("x")], Handler::DownloadAttachment),
        (vec![s("session"), s("login")], Handler::Login),
        (vec![s("session"), s("logout")], Handler::Logout),
        (vec![s("session"), s("status")], Handler::Status),
        (vec![s("misc"), s("search"), s("q")], Handler::Search),
        (vec![s("misc"), s("export"), s("t")], Handler::Export),
        (vec![s("misc"), s("contacts")], Handler::ListContacts),
    ];
    for (argv, expected) in cases {
        let inv = parse(&argv).unwrap();
        assert_eq!(handler_for(&inv.command), expected);
    }
}

#[test]
fn decimal_rendering_and_parsing() {
    assert_eq!(dec_string(0), s("0"));
    assert_eq!(dec_string(105), s("105"));
    assert_eq!(parse_dec("105"), Some(105));
    assert_eq!(parse_dec("007"), Some(7));
    assert_eq!(parse_dec(""), None);
    assert_eq!(parse_dec("+5"), None);
    assert_eq!(parse_dec("5 "), None);
    let n = parse_dec(&dec_string(usize::MAX)).unwrap();
    assert_eq!(n, usize::MAX);
}

#[test]
fn client_handle_exists() {
    let c = WwebJsClient::new();
    let d = c;
    assert_eq!(c, d);
}
