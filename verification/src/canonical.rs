//! Canonical argument form of a validated invocation, and the round-trip
//! guarantee.
//!
//! Every invocation has one canonical spelling: global flags first, then the
//! command words, then positionals, then the command's flags with every
//! value written out (numeric values in canonical decimal, the ordering flag
//! always explicit). Re-parsing that spelling yields the identical
//! invocation — [`lemma_round_trip`] proves it for every well-formed value.
//! Well-formed means only what the grammar itself forces: positional
//! arguments do not start with `-` (such a spelling would read as a flag)
//! and numeric fields are representable.

use vstd::prelude::*;
use crate::ast::{
    ChatOrder,
    ChatsQuery,
    ChatsQueryV,
    Command,
    CommandV,
    GrammarErrorV,
    Invocation,
    InvocationV,
    MiscAction,
    MiscActionV,
    SendRequestV,
    SessionAction,
};
use crate::num::{dec_str, dec_string, lemma_dec_str_accepts, lemma_dec_str_val};
use crate::parser::{parse_globals_spec, parse_spec};
use crate::assemble::assemble_spec;
use crate::scan::{
    flag_token,
    lemma_scan_positionals,
    is_flag_token,
    lemma_flag_token_facts,
    lemma_scan_bool,
    lemma_scan_end,
    lemma_scan_pos,
    lemma_scan_value,
    push_positional,
    raw_empty,
    scan_spec,
    set_bool_flag,
    set_value_flag,
    CmdKind,
    FlagKind,
    RawFlagsV,
};

verus! {

/// A string that can stand as a positional argument: it must not look like
/// a flag.
pub open spec fn positional_ok(s: Seq<char>) -> bool {
    !is_flag_token(s)
}

/// The well-formed commands: positionals that do not read as flags, and
/// representable numeric fields. Parsing only ever produces such values.
pub open spec fn command_valid(c: CommandV) -> bool {
    match c {
        CommandV::Chats(q) => match q {
            ChatsQueryV::List { limit, .. } => limit <= usize::MAX,
            ChatsQueryV::Print { target, count, .. } => positional_ok(target) && count
                <= usize::MAX,
            ChatsQueryV::Info { target } => positional_ok(target),
            ChatsQueryV::Archive { target } => positional_ok(target),
            ChatsQueryV::Unarchive { target } => positional_ok(target),
        },
        CommandV::Send(s) => positional_ok(s.to) && (s.message matches Some(m) ==> positional_ok(
            m,
        )),
        CommandV::Download(d) => positional_ok(d.attachment_id),
        CommandV::Session(_) => true,
        CommandV::Misc(m) => match m {
            MiscActionV::Search { query, limit } => positional_ok(query) && limit <= usize::MAX,
            MiscActionV::Export { target, .. } => positional_ok(target),
            MiscActionV::Contacts { .. } => true,
        },
    }
}

/// The well-formed invocations.
pub open spec fn invocation_valid(m: InvocationV) -> bool {
    command_valid(m.command)
}

/// The token that spells an ordering on the command line.
pub open spec fn order_token(o: ChatOrder) -> Seq<char> {
    match o {
        ChatOrder::Chronological => flag_token(FlagKind::ChronologicalOrder),
        ChatOrder::ReverseChronological => flag_token(FlagKind::ReverseChronologicalOrder),
        ChatOrder::Alphabetical => flag_token(FlagKind::AlphabeticalOrder),
    }
}

/// A one-token segment when the option is present, nothing when absent.
pub open spec fn opt_seq(o: Option<Seq<char>>) -> Seq<Seq<char>> {
    match o {
        Some(s) => seq![s],
        None => Seq::empty(),
    }
}

/// A flag-and-value segment when the option is present, nothing when absent.
pub open spec fn opt_value(o: Option<Seq<char>>, t: Seq<char>) -> Seq<Seq<char>> {
    match o {
        Some(s) => seq![t, s],
        None => Seq::empty(),
    }
}

/// The canonical spelling of the global flags.
pub open spec fn globals_prefix(verbose: bool, config: Option<Seq<char>>) -> Seq<Seq<char>> {
    (if verbose {
        seq!["--verbose"@]
    } else {
        Seq::<Seq<char>>::empty()
    }) + opt_value(config, "--config"@)
}

/// The canonical spelling of one command.
pub open spec fn canonical_command(c: CommandV) -> Seq<Seq<char>> {
    match c {
        CommandV::Chats(q) => match q {
            ChatsQueryV::List { details, limit, order } => if details {
                seq![
                    "chats"@,
                    "list"@,
                    "--details"@,
                    "--limit"@,
                    dec_str(limit),
                    order_token(order),
                ]
            } else {
                seq!["chats"@, "list"@, "--limit"@, dec_str(limit), order_token(order)]
            },
            ChatsQueryV::Print { target, count, timestamps } => if timestamps {
                seq!["chats"@, "print"@, target, "--count"@, dec_str(count), "--timestamps"@]
            } else {
                seq!["chats"@, "print"@, target, "--count"@, dec_str(count)]
            },
            ChatsQueryV::Info { target } => seq!["chats"@, "info"@, target],
            ChatsQueryV::Archive { target } => seq!["chats"@, "archive"@, target],
            ChatsQueryV::Unarchive { target } => seq!["chats"@, "unarchive"@, target],
        },
        CommandV::Send(s) => seq!["send"@, s.to] + opt_seq(s.message) + opt_value(
            s.attach,
            "--attach"@,
        ) + opt_value(s.at, "--at"@),
        CommandV::Download(d) => seq!["download"@, d.attachment_id, "--out"@, d.out],
        CommandV::Session(a) => match a {
            SessionAction::Login => seq!["session"@, "login"@],
            SessionAction::Logout => seq!["session"@, "logout"@],
            SessionAction::Status => seq!["session"@, "status"@],
        },
        CommandV::Misc(m) => match m {
            MiscActionV::Search { query, limit } => seq![
                "misc"@,
                "search"@,
                query,
                "--limit"@,
                dec_str(limit),
            ],
            MiscActionV::Export { target, format } => seq![
                "misc"@,
                "export"@,
                target,
                "--format"@,
                format,
            ],
            MiscActionV::Contacts { details } => if details {
                seq!["misc"@, "contacts"@, "--details"@]
            } else {
                seq!["misc"@, "contacts"@]
            },
        },
    }
}

/// The canonical argument form of a whole invocation.
pub open spec fn canonical_spec(m: InvocationV) -> Seq<Seq<char>> {
    globals_prefix(m.verbose, m.config) + canonical_command(m.command)
}

/// None of the command and sub-command words reads as a flag, and the words
/// along each selection chain are pairwise distinct.
proof fn lemma_word_facts()
    ensures
        !is_flag_token("chats"@),
        !is_flag_token("send"@),
        !is_flag_token("download"@),
        !is_flag_token("session"@),
        !is_flag_token("misc"@),
        !is_flag_token("list"@),
        !is_flag_token("print"@),
        !is_flag_token("info"@),
        !is_flag_token("archive"@),
        !is_flag_token("unarchive"@),
        !is_flag_token("login"@),
        !is_flag_token("logout"@),
        !is_flag_token("status"@),
        !is_flag_token("search"@),
        !is_flag_token("export"@),
        !is_flag_token("contacts"@),
        "send"@ != "chats"@,
        "download"@ != "chats"@ && "download"@ != "send"@,
        "session"@ != "chats"@ && "session"@ != "send"@ && "session"@ != "download"@,
        "misc"@ != "chats"@ && "misc"@ != "send"@ && "misc"@ != "download"@ && "misc"@
            != "session"@,
        "print"@ != "list"@,
        "info"@ != "list"@ && "info"@ != "print"@,
        "archive"@ != "list"@ && "archive"@ != "print"@ && "archive"@ != "info"@,
        "unarchive"@ != "list"@ && "unarchive"@ != "print"@ && "unarchive"@ != "info"@
            && "unarchive"@ != "archive"@,
        "logout"@ != "login"@,
        "status"@ != "login"@ && "status"@ != "logout"@,
        "export"@ != "search"@,
        "contacts"@ != "search"@ && "contacts"@ != "export"@,
{
    reveal_strlit("chats");
    reveal_strlit("send");
    reveal_strlit("download");
    reveal_strlit("session");
    reveal_strlit("misc");
    reveal_strlit("list");
    reveal_strlit("print");
    reveal_strlit("info");
    reveal_strlit("archive");
    reveal_strlit("unarchive");
    reveal_strlit("login");
    reveal_strlit("logout");
    reveal_strlit("status");
    reveal_strlit("search");
    reveal_strlit("export");
    reveal_strlit("contacts");
    assert("chats"@.len() == 5 && "send"@.len() == 4 && "download"@.len() == 8 && "session"@.len()
        == 7 && "misc"@.len() == 4);
    assert("misc"@[0] == 'm' && "send"@[0] == 's');
    assert("list"@.len() == 4 && "print"@.len() == 5 && "info"@.len() == 4 && "archive"@.len() == 7
        && "unarchive"@.len() == 9);
    assert("info"@[0] == 'i' && "list"@[0] == 'l');
    assert("login"@.len() == 5 && "logout"@.len() == 6 && "status"@.len() == 6);
    assert("status"@[0] == 's' && "logout"@[0] == 'l');
    assert("search"@.len() == 6 && "export"@.len() == 6 && "contacts"@.len() == 8);
    assert("export"@[0] == 'e' && "search"@[0] == 's');
}

/// Parsing the canonical global prefix restores the global settings and
/// stops at the first command word.
proof fn lemma_globals_canonical(verbose: bool, config: Option<Seq<char>>, tail: Seq<Seq<char>>)
    requires
        tail.len() > 0,
        !is_flag_token(tail[0]),
    ensures
        ({
            let pre = globals_prefix(verbose, config);
            parse_globals_spec(pre + tail, 0, false, None) == Ok::<
                (bool, Option<Seq<char>>, nat),
                GrammarErrorV,
            >((verbose, config, pre.len() as nat))
        }),
{
    reveal_strlit("--verbose");
    reveal_strlit("--config");
    assert("--verbose"@.len() == 9 && "--config"@.len() == 8);
    assert(is_flag_token("--verbose"@) && is_flag_token("--config"@));
    let pre = globals_prefix(verbose, config);
    let args = pre + tail;
    if verbose {
        assert(args[0] == "--verbose"@);
        assert(parse_globals_spec(args, 0, false, None) == parse_globals_spec(
            args,
            1,
            true,
            None,
        ));
        match config {
            Some(c) => {
                assert(args[1] == "--config"@ && args[2] == c);
                assert(parse_globals_spec(args, 1, true, None) == parse_globals_spec(
                    args,
                    3,
                    true,
                    Some(c),
                ));
                assert(args[3] == tail[0]);
                assert(parse_globals_spec(args, 3, true, Some(c)) == Ok::<
                    (bool, Option<Seq<char>>, nat),
                    GrammarErrorV,
                >((true, Some(c), 3)));
            },
            None => {
                assert(args[1] == tail[0]);
                assert(parse_globals_spec(args, 1, true, None) == Ok::<
                    (bool, Option<Seq<char>>, nat),
                    GrammarErrorV,
                >((true, None, 1)));
            },
        }
    } else {
        match config {
            Some(c) => {
                assert(args[0] == "--config"@ && args[1] == c);
                assert(parse_globals_spec(args, 0, false, None) == parse_globals_spec(
                    args,
                    2,
                    false,
                    Some(c),
                ));
                assert(args[2] == tail[0]);
                assert(parse_globals_spec(args, 2, false, Some(c)) == Ok::<
                    (bool, Option<Seq<char>>, nat),
                    GrammarErrorV,
                >((false, Some(c), 2)));
            },
            None => {
                assert(args[0] == tail[0]);
                assert(parse_globals_spec(args, 0, false, None) == Ok::<
                    (bool, Option<Seq<char>>, nat),
                    GrammarErrorV,
                >((false, None, 0)));
            },
        }
    }
}

/// Append one token.
fn push_tok(v: &mut Vec<String>, s: &str)
    ensures
        final(v).deep_view() == old(v).deep_view().push(s@),
{
    v.push(s.to_owned());
    proof {
        assert(v.deep_view() =~= old(v).deep_view().push(s@));
    }
}

/// Append one owned token.
fn push_tok_string(v: &mut Vec<String>, s: String)
    ensures
        final(v).deep_view() == old(v).deep_view().push(s@),
{
    let ghost sv = s@;
    v.push(s);
    proof {
        assert(v.deep_view() =~= old(v).deep_view().push(sv));
    }
}

/// Write a validated invocation back in its canonical argument form.
#[verifier::rlimit(100)]
pub fn canonical_args(inv: &Invocation) -> (r: Vec<String>)
    ensures
        r.deep_view() == canonical_spec(inv@),
{
    let mut v: Vec<String> = Vec::new();
    proof {
        assert(v.deep_view() =~= Seq::<Seq<char>>::empty());
    }
    if inv.verbose {
        push_tok(&mut v, "--verbose");
    }
    if let Some(c) = &inv.config {
        push_tok(&mut v, "--config");
        push_tok_string(&mut v, c.clone());
    }
    proof {
        assert(v.deep_view() =~= globals_prefix(inv@.verbose, inv@.config));
    }
    let ghost pre = v.deep_view();
    match &inv.command {
        Command::Chats(q) => {
            push_tok(&mut v, "chats");
            match q {
                ChatsQuery::List { details, limit, order } => {
                    push_tok(&mut v, "list");
                    if *details {
                        push_tok(&mut v, "--details");
                    }
                    push_tok(&mut v, "--limit");
                    push_tok_string(&mut v, dec_string(*limit));
                    match order {
                        ChatOrder::Chronological => push_tok(&mut v, "--chronological-order"),
                        ChatOrder::ReverseChronological => push_tok(
                            &mut v,
                            "--reverse-chronological-order",
                        ),
                        ChatOrder::Alphabetical => push_tok(&mut v, "--alphabetical-order"),
                    }
                },
                ChatsQuery::Print { target, count, timestamps } => {
                    push_tok(&mut v, "print");
                    push_tok_string(&mut v, target.clone());
                    push_tok(&mut v, "--count");
                    push_tok_string(&mut v, dec_string(*count));
                    if *timestamps {
                        push_tok(&mut v, "--timestamps");
                    }
                },
                ChatsQuery::Info { target } => {
                    push_tok(&mut v, "info");
                    push_tok_string(&mut v, target.clone());
                },
                ChatsQuery::Archive { target } => {
                    push_tok(&mut v, "archive");
                    push_tok_string(&mut v, target.clone());
                },
                ChatsQuery::Unarchive { target } => {
                    push_tok(&mut v, "unarchive");
                    push_tok_string(&mut v, target.clone());
                },
            }
        },
        Command::Send(s) => {
            push_tok(&mut v, "send");
            push_tok_string(&mut v, s.to.clone());
            if let Some(m) = &s.message {
                push_tok_string(&mut v, m.clone());
            }
            if let Some(a) = &s.attach {
                push_tok(&mut v, "--attach");
                push_tok_string(&mut v, a.clone());
            }
            if let Some(t) = &s.at {
                push_tok(&mut v, "--at");
                push_tok_string(&mut v, t.clone());
            }
        },
        Command::Download(d) => {
            push_tok(&mut v, "download");
            push_tok_string(&mut v, d.attachment_id.clone());
            push_tok(&mut v, "--out");
            push_tok_string(&mut v, d.out.clone());
        },
        Command::Session(a) => {
            push_tok(&mut v, "session");
            match a {
                SessionAction::Login => push_tok(&mut v, "login"),
                SessionAction::Logout => push_tok(&mut v, "logout"),
                SessionAction::Status => push_tok(&mut v, "status"),
            }
        },
        Command::Misc(m) => {
            push_tok(&mut v, "misc");
            match m {
                MiscAction::Search { query, limit } => {
                    push_tok(&mut v, "search");
                    push_tok_string(&mut v, query.clone());
                    push_tok(&mut v, "--limit");
                    push_tok_string(&mut v, dec_string(*limit));
                },
                MiscAction::Export { target, format } => {
                    push_tok(&mut v, "export");
                    push_tok_string(&mut v, target.clone());
                    push_tok(&mut v, "--format");
                    push_tok_string(&mut v, format.clone());
                },
                MiscAction::Contacts { details } => {
                    push_tok(&mut v, "contacts");
                    if *details {
                        push_tok(&mut v, "--details");
                    }
                },
            }
        },
    }
    proof {
        assert(v.deep_view() =~= pre + canonical_command(inv@.command));
    }
    v
}

/// Round trip for the `chats` family.
#[verifier::rlimit(100)]
proof fn rt_chats(verbose: bool, config: Option<Seq<char>>, q: ChatsQueryV)
    requires
        command_valid(CommandV::Chats(q)),
    ensures
        ({
            let m = InvocationV { verbose, config, command: CommandV::Chats(q) };
            parse_spec(canonical_spec(m)) == Ok::<InvocationV, GrammarErrorV>(m)
        }),
{
    lemma_word_facts();
    lemma_flag_token_facts();
    let m = InvocationV { verbose, config, command: CommandV::Chats(q) };
    let cc = canonical_command(m.command);
    let pre = globals_prefix(verbose, config);
    let args = pre + cc;
    let p = pre.len() as int;
    assert(cc[0] == "chats"@);
    lemma_globals_canonical(verbose, config, cc);
    assert(args[p] == "chats"@);
    match q {
        ChatsQueryV::List { details, limit, order } => {
            assert(args[p + 1] == "list"@);
            let k = CmdKind::ChatsList;
            let forder = match order {
                ChatOrder::Chronological => FlagKind::ChronologicalOrder,
                ChatOrder::ReverseChronological => FlagKind::ReverseChronologicalOrder,
                ChatOrder::Alphabetical => FlagKind::AlphabeticalOrder,
            };
            assert(order_token(order) == flag_token(forder));
            let i0: nat = (p + 2) as nat;
            let acc0 = raw_empty();
            if details {
                assert(args[i0 as int] == "--details"@ && args[i0 as int + 1] == "--limit"@ && args[i0 as int
                    + 2] == dec_str(limit) && args[i0 as int + 3] == order_token(order));
                lemma_scan_bool(k, args, i0, acc0, FlagKind::Details);
                let acc1 = set_bool_flag(acc0, FlagKind::Details);
                lemma_scan_value(k, args, i0 + 1, acc1, FlagKind::Limit);
                let acc2 = set_value_flag(acc1, FlagKind::Limit, dec_str(limit));
                lemma_scan_bool(k, args, i0 + 3, acc2, forder);
                let acc3 = set_bool_flag(acc2, forder);
                lemma_scan_end(k, args, i0 + 4, acc3);
                assert(scan_spec(k, args, i0, acc0) == Ok::<RawFlagsV, GrammarErrorV>(acc3));
                lemma_dec_str_accepts(limit);
                lemma_dec_str_val(limit);
                assert(assemble_spec(k, acc3) == Ok::<CommandV, GrammarErrorV>(m.command));
            } else {
                assert(args[i0 as int] == "--limit"@ && args[i0 as int + 1] == dec_str(limit) && args[i0 as int
                    + 2] == order_token(order));
                lemma_scan_value(k, args, i0, acc0, FlagKind::Limit);
                let acc2 = set_value_flag(acc0, FlagKind::Limit, dec_str(limit));
                lemma_scan_bool(k, args, i0 + 2, acc2, forder);
                let acc3 = set_bool_flag(acc2, forder);
                lemma_scan_end(k, args, i0 + 3, acc3);
                assert(scan_spec(k, args, i0, acc0) == Ok::<RawFlagsV, GrammarErrorV>(acc3));
                lemma_dec_str_accepts(limit);
                lemma_dec_str_val(limit);
                assert(assemble_spec(k, acc3) == Ok::<CommandV, GrammarErrorV>(m.command));
            }
            assert(parse_spec(args) == Ok::<InvocationV, GrammarErrorV>(m));
        },
        ChatsQueryV::Print { target, count, timestamps } => {
            assert(args[p + 1] == "print"@);
            let k = CmdKind::ChatsPrint;
            let i0: nat = (p + 2) as nat;
            let acc0 = raw_empty();
            assert(args[i0 as int] == target && args[i0 as int + 1] == "--count"@ && args[i0 as int + 2]
                == dec_str(count));
            lemma_scan_pos(k, args, i0, acc0);
            let acc1 = push_positional(acc0, target);
            lemma_scan_value(k, args, i0 + 1, acc1, FlagKind::Count);
            let acc2 = set_value_flag(acc1, FlagKind::Count, dec_str(count));
            lemma_dec_str_accepts(count);
            lemma_dec_str_val(count);
            if timestamps {
                assert(args[i0 as int + 3] == "--timestamps"@);
                lemma_scan_bool(k, args, i0 + 3, acc2, FlagKind::Timestamps);
                let acc3 = set_bool_flag(acc2, FlagKind::Timestamps);
                lemma_scan_end(k, args, i0 + 4, acc3);
                assert(scan_spec(k, args, i0, acc0) == Ok::<RawFlagsV, GrammarErrorV>(acc3));
                assert(assemble_spec(k, acc3) == Ok::<CommandV, GrammarErrorV>(m.command));
            } else {
                lemma_scan_end(k, args, i0 + 3, acc2);
                assert(scan_spec(k, args, i0, acc0) == Ok::<RawFlagsV, GrammarErrorV>(acc2));
                assert(assemble_spec(k, acc2) == Ok::<CommandV, GrammarErrorV>(m.command));
            }
            assert(parse_spec(args) == Ok::<InvocationV, GrammarErrorV>(m));
        },
        ChatsQueryV::Info { target } => {
            assert(args[p + 1] == "info"@ && args[p + 2] == target);
            let k = CmdKind::ChatsInfo;
            let i0: nat = (p + 2) as nat;
            lemma_scan_pos(k, args, i0, raw_empty());
            let acc1 = push_positional(raw_empty(), target);
            lemma_scan_end(k, args, i0 + 1, acc1);
            assert(assemble_spec(k, acc1) == Ok::<CommandV, GrammarErrorV>(m.command));
            assert(parse_spec(args) == Ok::<InvocationV, GrammarErrorV>(m));
        },
        ChatsQueryV::Archive { target } => {
            assert(args[p + 1] == "archive"@ && args[p + 2] == target);
            let k = CmdKind::ChatsArchive;
            let i0: nat = (p + 2) as nat;
            lemma_scan_pos(k, args, i0, raw_empty());
            let acc1 = push_positional(raw_empty(), target);
            lemma_scan_end(k, args, i0 + 1, acc1);
            assert(assemble_spec(k, acc1) == Ok::<CommandV, GrammarErrorV>(m.command));
            assert(parse_spec(args) == Ok::<InvocationV, GrammarErrorV>(m));
        },
        ChatsQueryV::Unarchive { target } => {
            assert(args[p + 1] == "unarchive"@ && args[p + 2] == target);
            let k = CmdKind::ChatsUnarchive;
            let i0: nat = (p + 2) as nat;
            lemma_scan_pos(k, args, i0, raw_empty());
            let acc1 = push_positional(raw_empty(), target);
            lemma_scan_end(k, args, i0 + 1, acc1);
            assert(assemble_spec(k, acc1) == Ok::<CommandV, GrammarErrorV>(m.command));
            assert(parse_spec(args) == Ok::<InvocationV, GrammarErrorV>(m));
        },
    }
}

/// Round trip for `send`.
#[verifier::rlimit(100)]
proof fn rt_send(verbose: bool, config: Option<Seq<char>>, s: SendRequestV)
    requires
        command_valid(CommandV::Send(s)),
    ensures
        ({
            let m = InvocationV { verbose, config, command: CommandV::Send(s) };
            parse_spec(canonical_spec(m)) == Ok::<InvocationV, GrammarErrorV>(m)
        }),
{
    lemma_word_facts();
    lemma_flag_token_facts();
    let m = InvocationV { verbose, config, command: CommandV::Send(s) };
    let cc = canonical_command(m.command);
    let pre = globals_prefix(verbose, config);
    let args = pre + cc;
    let p = pre.len() as int;
    assert(cc[0] == "send"@);
    lemma_globals_canonical(verbose, config, cc);
    assert(args[p] == "send"@);
    let k = CmdKind::Send;
    let base: nat = (p + 1) as nat;
    assert(args[base as int] == s.to);
    lemma_scan_pos(k, args, base, raw_empty());
    let acc1 = push_positional(raw_empty(), s.to);
    let i1: nat = base + 1;
    let acc2 = match s.message {
        Some(mv) => {
            assert(args[i1 as int] == mv);
            lemma_scan_pos(k, args, i1, acc1);
            push_positional(acc1, mv)
        },
        None => acc1,
    };
    let i2: nat = if s.message is Some {
        i1 + 1
    } else {
        i1
    };
    let acc3 = match s.attach {
        Some(av) => {
            assert(args[i2 as int] == "--attach"@ && args[i2 as int + 1] == av);
            lemma_scan_value(k, args, i2, acc2, FlagKind::Attach);
            set_value_flag(acc2, FlagKind::Attach, av)
        },
        None => acc2,
    };
    let i3: nat = if s.attach is Some {
        i2 + 2
    } else {
        i2
    };
    let acc4 = match s.at {
        Some(tv) => {
            assert(args[i3 as int] == "--at"@ && args[i3 as int + 1] == tv);
            lemma_scan_value(k, args, i3, acc3, FlagKind::At);
            set_value_flag(acc3, FlagKind::At, tv)
        },
        None => acc3,
    };
    let i4: nat = if s.at is Some {
        i3 + 2
    } else {
        i3
    };
    lemma_scan_end(k, args, i4, acc4);
    assert(scan_spec(k, args, base, raw_empty()) == Ok::<RawFlagsV, GrammarErrorV>(acc4));
    assert(assemble_spec(k, acc4) == Ok::<CommandV, GrammarErrorV>(m.command));
    assert(parse_spec(args) == Ok::<InvocationV, GrammarErrorV>(m));
}

/// Round trip for `download`.
proof fn rt_download(verbose: bool, config: Option<Seq<char>>, d: crate::ast::DownloadRequestV)
    requires
        command_valid(CommandV::Download(d)),
    ensures
        ({
            let m = InvocationV { verbose, config, command: CommandV::Download(d) };
            parse_spec(canonical_spec(m)) == Ok::<InvocationV, GrammarErrorV>(m)
        }),
{
    lemma_word_facts();
    lemma_flag_token_facts();
    let m = InvocationV { verbose, config, command: CommandV::Download(d) };
    let cc = canonical_command(m.command);
    let pre = globals_prefix(verbose, config);
    let args = pre + cc;
    let p = pre.len() as int;
    assert(cc[0] == "download"@);
    lemma_globals_canonical(verbose, config, cc);
    assert(args[p] == "download"@);
    let k = CmdKind::Download;
    let i0: nat = (p + 1) as nat;
    assert(args[i0 as int] == d.attachment_id && args[i0 as int + 1] == "--out"@ && args[i0 as int + 2] == d.out);
    lemma_scan_pos(k, args, i0, raw_empty());
    let acc1 = push_positional(raw_empty(), d.attachment_id);
    lemma_scan_value(k, args, i0 + 1, acc1, FlagKind::Out);
    let acc2 = set_value_flag(acc1, FlagKind::Out, d.out);
    lemma_scan_end(k, args, i0 + 3, acc2);
    assert(scan_spec(k, args, i0, raw_empty()) == Ok::<RawFlagsV, GrammarErrorV>(acc2));
    assert(assemble_spec(k, acc2) == Ok::<CommandV, GrammarErrorV>(m.command));
    assert(parse_spec(args) == Ok::<InvocationV, GrammarErrorV>(m));
}

/// Round trip for the `session` family.
proof fn rt_session(verbose: bool, config: Option<Seq<char>>, a: SessionAction)
    ensures
        ({
            let m = InvocationV { verbose, config, command: CommandV::Session(a) };
            parse_spec(canonical_spec(m)) == Ok::<InvocationV, GrammarErrorV>(m)
        }),
{
    lemma_word_facts();
    lemma_flag_token_facts();
    let m = InvocationV { verbose, config, command: CommandV::Session(a) };
    let cc = canonical_command(m.command);
    let pre = globals_prefix(verbose, config);
    let args = pre + cc;
    let p = pre.len() as int;
    assert(cc[0] == "session"@);
    lemma_globals_canonical(verbose, config, cc);
    assert(args[p] == "session"@);
    let i0: nat = (p + 2) as nat;
    match a {
        SessionAction::Login => {
            assert(args[p + 1] == "login"@);
            lemma_scan_end(CmdKind::SessionLogin, args, i0, raw_empty());
        },
        SessionAction::Logout => {
            assert(args[p + 1] == "logout"@);
            lemma_scan_end(CmdKind::SessionLogout, args, i0, raw_empty());
        },
        SessionAction::Status => {
            assert(args[p + 1] == "status"@);
            lemma_scan_end(CmdKind::SessionStatus, args, i0, raw_empty());
        },
    }
    assert(parse_spec(args) == Ok::<InvocationV, GrammarErrorV>(m));
}

/// Round trip for the `misc` family.
#[verifier::rlimit(100)]
proof fn rt_misc(verbose: bool, config: Option<Seq<char>>, a: MiscActionV)
    requires
        command_valid(CommandV::Misc(a)),
    ensures
        ({
            let m = InvocationV { verbose, config, command: CommandV::Misc(a) };
            parse_spec(canonical_spec(m)) == Ok::<InvocationV, GrammarErrorV>(m)
        }),
{
    lemma_word_facts();
    lemma_flag_token_facts();
    let m = InvocationV { verbose, config, command: CommandV::Misc(a) };
    let cc = canonical_command(m.command);
    let pre = globals_prefix(verbose, config);
    let args = pre + cc;
    let p = pre.len() as int;
    assert(cc[0] == "misc"@);
    lemma_globals_canonical(verbose, config, cc);
    assert(args[p] == "misc"@);
    match a {
        MiscActionV::Search { query, limit } => {
            assert(args[p + 1] == "search"@);
            let k = CmdKind::MiscSearch;
            let i0: nat = (p + 2) as nat;
            assert(args[i0 as int] == query && args[i0 as int + 1] == "--limit"@ && args[i0 as int + 2]
                == dec_str(limit));
            lemma_scan_pos(k, args, i0, raw_empty());
            let acc1 = push_positional(raw_empty(), query);
            lemma_scan_value(k, args, i0 + 1, acc1, FlagKind::Limit);
            let acc2 = set_value_flag(acc1, FlagKind::Limit, dec_str(limit));
            lemma_scan_end(k, args, i0 + 3, acc2);
            assert(scan_spec(k, args, i0, raw_empty()) == Ok::<RawFlagsV, GrammarErrorV>(acc2));
            lemma_dec_str_accepts(limit);
            lemma_dec_str_val(limit);
            assert(assemble_spec(k, acc2) == Ok::<CommandV, GrammarErrorV>(m.command));
        },
        MiscActionV::Export { target, format } => {
            assert(args[p + 1] == "export"@);
            let k = CmdKind::MiscExport;
            let i0: nat = (p + 2) as nat;
            assert(args[i0 as int] == target && args[i0 as int + 1] == "--format"@ && args[i0 as int + 2]
                == format);
            lemma_scan_pos(k, args, i0, raw_empty());
            let acc1 = push_positional(raw_empty(), target);
            lemma_scan_value(k, args, i0 + 1, acc1, FlagKind::Format);
            let acc2 = set_value_flag(acc1, FlagKind::Format, format);
            lemma_scan_end(k, args, i0 + 3, acc2);
            assert(scan_spec(k, args, i0, raw_empty()) == Ok::<RawFlagsV, GrammarErrorV>(acc2));
            assert(assemble_spec(k, acc2) == Ok::<CommandV, GrammarErrorV>(m.command));
        },
        MiscActionV::Contacts { details } => {
            assert(args[p + 1] == "contacts"@);
            let k = CmdKind::MiscContacts;
            let i0: nat = (p + 2) as nat;
            if details {
                assert(args[i0 as int] == "--details"@);
                lemma_scan_bool(k, args, i0, raw_empty(), FlagKind::Details);
                let acc1 = set_bool_flag(raw_empty(), FlagKind::Details);
                lemma_scan_end(k, args, i0 + 1, acc1);
                assert(assemble_spec(k, acc1) == Ok::<CommandV, GrammarErrorV>(m.command));
            } else {
                lemma_scan_end(k, args, i0, raw_empty());
                assert(assemble_spec(k, raw_empty()) == Ok::<CommandV, GrammarErrorV>(m.command));
            }
        },
    }
    assert(parse_spec(args) == Ok::<InvocationV, GrammarErrorV>(m));
}

/// Every invocation the parser produces is well-formed: its positionals
/// came from non-flag tokens and its numeric fields from accepted decimal
/// values, so the round trip below applies to every parse result.
#[verifier::rlimit(100)]
pub proof fn lemma_parse_valid(args: Seq<Seq<char>>)
    ensures
        parse_spec(args) matches Ok(inv) ==> invocation_valid(inv),
{
    match parse_globals_spec(args, 0, false, None) {
        Err(_) => {},
        Ok((verbose, config, gi)) => {
            lemma_scan_positionals(CmdKind::ChatsList, args, gi + 2, raw_empty());
            lemma_scan_positionals(CmdKind::ChatsPrint, args, gi + 2, raw_empty());
            lemma_scan_positionals(CmdKind::ChatsInfo, args, gi + 2, raw_empty());
            lemma_scan_positionals(CmdKind::ChatsArchive, args, gi + 2, raw_empty());
            lemma_scan_positionals(CmdKind::ChatsUnarchive, args, gi + 2, raw_empty());
            lemma_scan_positionals(CmdKind::Send, args, gi + 1, raw_empty());
            lemma_scan_positionals(CmdKind::Download, args, gi + 1, raw_empty());
            lemma_scan_positionals(CmdKind::SessionLogin, args, gi + 2, raw_empty());
            lemma_scan_positionals(CmdKind::SessionLogout, args, gi + 2, raw_empty());
            lemma_scan_positionals(CmdKind::SessionStatus, args, gi + 2, raw_empty());
            lemma_scan_positionals(CmdKind::MiscSearch, args, gi + 2, raw_empty());
            lemma_scan_positionals(CmdKind::MiscExport, args, gi + 2, raw_empty());
            lemma_scan_positionals(CmdKind::MiscContacts, args, gi + 2, raw_empty());
        },
    }
}

/// Round trip: re-serializing a validated invocation to its canonical
/// argument form and re-parsing yields the identical invocation.
pub proof fn lemma_round_trip(m: InvocationV)
    requires
        invocation_valid(m),
    ensures
        parse_spec(canonical_spec(m)) == Ok::<InvocationV, GrammarErrorV>(m),
{
    match m.command {
        CommandV::Chats(q) => rt_chats(m.verbose, m.config, q),
        CommandV::Send(s) => rt_send(m.verbose, m.config, s),
        CommandV::Download(d) => rt_download(m.verbose, m.config, d),
        CommandV::Session(a) => rt_session(m.verbose, m.config, a),
        CommandV::Misc(a) => rt_misc(m.verbose, m.config, a),
    }
}

} // verus!
