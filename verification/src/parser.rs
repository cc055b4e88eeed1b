//! The parser: raw argument list to validated invocation.
//!
//! Parsing is synchronous and side-effect-free: leading global flags
//! (`--verbose`, `--config FILE`) are taken first, then exactly one command
//! word (and a sub-command word for `chats`, `session` and `misc`) selects
//! the leaf command, whose remaining tokens are scanned and validated. The
//! argument list starts with the first real argument (no program name).
//! [`parse_spec`] is the complete specification; [`parse`] is its verified
//! executable form.

use vstd::prelude::*;
use crate::ast::{GrammarError, GrammarErrorV, Invocation, InvocationV};
use crate::assemble::{assemble, assemble_spec};
use crate::scan::{is_flag, is_flag_token, new_raw, raw_empty, scan, scan_spec, str_eq, CmdKind};

verus! {

/// What the global-flag prefix of an argument list resolves to: the two
/// global settings and the index where the command words start.
pub open spec fn parse_globals_spec(
    args: Seq<Seq<char>>,
    i: nat,
    verbose: bool,
    config: Option<Seq<char>>,
) -> Result<(bool, Option<Seq<char>>, nat), GrammarErrorV>
    decreases args.len() - i,
{
    if i >= args.len() {
        Ok((verbose, config, i))
    } else if args[i as int] == "--verbose"@ {
        parse_globals_spec(args, i + 1, true, config)
    } else if args[i as int] == "--config"@ {
        if i + 1 < args.len() {
            parse_globals_spec(args, i + 2, verbose, Some(args[i + 1 as int]))
        } else {
            Err(GrammarErrorV::MissingValue("--config"@))
        }
    } else {
        Ok((verbose, config, i))
    }
}

/// Scan and validate the tokens of one leaf command, then attach the global
/// settings.
pub open spec fn finish_spec(
    k: CmdKind,
    args: Seq<Seq<char>>,
    i: nat,
    verbose: bool,
    config: Option<Seq<char>>,
) -> Result<InvocationV, GrammarErrorV> {
    match scan_spec(k, args, i, raw_empty()) {
        Err(e) => Err(e),
        Ok(raw) => match assemble_spec(k, raw) {
            Err(e) => Err(e),
            Ok(command) => Ok(InvocationV { verbose, config, command }),
        },
    }
}

/// The leaf command a sub-command word of `chats` selects.
pub open spec fn chats_sub_spec(args: Seq<Seq<char>>, i: nat) -> Result<CmdKind, GrammarErrorV> {
    if i >= args.len() {
        Err(GrammarErrorV::MissingCommand)
    } else {
        let w = args[i as int];
        if w == "list"@ {
            Ok(CmdKind::ChatsList)
        } else if w == "print"@ {
            Ok(CmdKind::ChatsPrint)
        } else if w == "info"@ {
            Ok(CmdKind::ChatsInfo)
        } else if w == "archive"@ {
            Ok(CmdKind::ChatsArchive)
        } else if w == "unarchive"@ {
            Ok(CmdKind::ChatsUnarchive)
        } else if is_flag_token(w) {
            Err(GrammarErrorV::UnknownFlag(w))
        } else {
            Err(GrammarErrorV::UnknownCommand(w))
        }
    }
}

/// The leaf command a sub-command word of `session` selects.
pub open spec fn session_sub_spec(args: Seq<Seq<char>>, i: nat) -> Result<CmdKind, GrammarErrorV> {
    if i >= args.len() {
        Err(GrammarErrorV::MissingCommand)
    } else {
        let w = args[i as int];
        if w == "login"@ {
            Ok(CmdKind::SessionLogin)
        } else if w == "logout"@ {
            Ok(CmdKind::SessionLogout)
        } else if w == "status"@ {
            Ok(CmdKind::SessionStatus)
        } else if is_flag_token(w) {
            Err(GrammarErrorV::UnknownFlag(w))
        } else {
            Err(GrammarErrorV::UnknownCommand(w))
        }
    }
}

/// The leaf command a sub-command word of `misc` selects.
pub open spec fn misc_sub_spec(args: Seq<Seq<char>>, i: nat) -> Result<CmdKind, GrammarErrorV> {
    if i >= args.len() {
        Err(GrammarErrorV::MissingCommand)
    } else {
        let w = args[i as int];
        if w == "search"@ {
            Ok(CmdKind::MiscSearch)
        } else if w == "export"@ {
            Ok(CmdKind::MiscExport)
        } else if w == "contacts"@ {
            Ok(CmdKind::MiscContacts)
        } else if is_flag_token(w) {
            Err(GrammarErrorV::UnknownFlag(w))
        } else {
            Err(GrammarErrorV::UnknownCommand(w))
        }
    }
}

/// What parsing an argument list yields: exactly one validated invocation,
/// or the grammar error that rules it out. This is the whole grammar.
pub open spec fn parse_spec(args: Seq<Seq<char>>) -> Result<InvocationV, GrammarErrorV> {
    match parse_globals_spec(args, 0, false, None) {
        Err(e) => Err(e),
        Ok((verbose, config, i)) => if i >= args.len() {
            Err(GrammarErrorV::MissingCommand)
        } else {
            let w = args[i as int];
            if is_flag_token(w) {
                Err(GrammarErrorV::UnknownFlag(w))
            } else if w == "chats"@ {
                match chats_sub_spec(args, i + 1) {
                    Err(e) => Err(e),
                    Ok(k) => finish_spec(k, args, i + 2, verbose, config),
                }
            } else if w == "send"@ {
                finish_spec(CmdKind::Send, args, i + 1, verbose, config)
            } else if w == "download"@ {
                finish_spec(CmdKind::Download, args, i + 1, verbose, config)
            } else if w == "session"@ {
                match session_sub_spec(args, i + 1) {
                    Err(e) => Err(e),
                    Ok(k) => finish_spec(k, args, i + 2, verbose, config),
                }
            } else if w == "misc"@ {
                match misc_sub_spec(args, i + 1) {
                    Err(e) => Err(e),
                    Ok(k) => finish_spec(k, args, i + 2, verbose, config),
                }
            } else {
                Err(GrammarErrorV::UnknownCommand(w))
            }
        },
    }
}

/// Take the leading global flags, as [`parse_globals_spec`] describes.
fn parse_globals(args: &Vec<String>, i: usize, verbose: bool, config: Option<String>) -> (r:
    Result<(bool, Option<String>, usize), GrammarError>)
    requires
        i <= args.len(),
    ensures
        match r {
            Ok(t) => parse_globals_spec(
                args.deep_view(),
                i as nat,
                verbose,
                crate::ast::opt_view(config),
            ) == Ok::<(bool, Option<Seq<char>>, nat), GrammarErrorV>(
                (t.0, crate::ast::opt_view(t.1), t.2 as nat),
            ) && t.2 <= args.len(),
            Err(e) => parse_globals_spec(
                args.deep_view(),
                i as nat,
                verbose,
                crate::ast::opt_view(config),
            ) == Err::<(bool, Option<Seq<char>>, nat), GrammarErrorV>(e@),
        },
    decreases args.len() - i,
{
    proof {
        assert(args.deep_view().len() == args@.len());
    }
    if i >= args.len() {
        return Ok((verbose, config, i));
    }
    proof {
        assert(args.deep_view()[i as int] == args@[i as int]@);
    }
    let t: &String = &args[i];
    if str_eq(t.as_str(), "--verbose") {
        parse_globals(args, i + 1, true, config)
    } else if str_eq(t.as_str(), "--config") {
        if i + 1 < args.len() {
            proof {
                assert(args.deep_view()[i + 1] == args@[i + 1]@);
            }
            let v = args[i + 1].clone();
            parse_globals(args, i + 2, verbose, Some(v))
        } else {
            Err(GrammarError::MissingValue("--config".to_owned()))
        }
    } else {
        Ok((verbose, config, i))
    }
}

/// Scan and validate one leaf command, as [`finish_spec`] describes.
fn finish(k: CmdKind, args: &Vec<String>, i: usize, verbose: bool, config: Option<String>) -> (r:
    Result<Invocation, GrammarError>)
    requires
        i <= args.len(),
    ensures
        match r {
            Ok(inv) => finish_spec(
                k,
                args.deep_view(),
                i as nat,
                verbose,
                crate::ast::opt_view(config),
            ) == Ok::<InvocationV, GrammarErrorV>(inv@),
            Err(e) => finish_spec(
                k,
                args.deep_view(),
                i as nat,
                verbose,
                crate::ast::opt_view(config),
            ) == Err::<InvocationV, GrammarErrorV>(e@),
        },
{
    match scan(k, args, i, new_raw()) {
        Err(e) => Err(e),
        Ok(raw) => match assemble(k, raw) {
            Err(e) => Err(e),
            Ok(command) => Ok(Invocation { verbose, config, command }),
        },
    }
}

/// Which sub-command table to match the word against.
#[derive(Clone, Copy, Debug, PartialEq, Eq, Structural)]
enum SubTable {
    Chats,
    Session,
    Misc,
}

/// Select a leaf command from the sub-command word at `args[i]`.
fn sub_word(args: &Vec<String>, i: usize, table: SubTable) -> (r: Result<CmdKind, GrammarError>)
    requires
        i <= args.len(),
    ensures
        ({
            let s = match table {
                SubTable::Chats => chats_sub_spec(args.deep_view(), i as nat),
                SubTable::Session => session_sub_spec(args.deep_view(), i as nat),
                SubTable::Misc => misc_sub_spec(args.deep_view(), i as nat),
            };
            match r {
                Ok(k) => s == Ok::<CmdKind, GrammarErrorV>(k) && i < args.len(),
                Err(e) => s == Err::<CmdKind, GrammarErrorV>(e@),
            }
        }),
{
    proof {
        assert(args.deep_view().len() == args@.len());
    }
    if i >= args.len() {
        return Err(GrammarError::MissingCommand);
    }
    proof {
        assert(args.deep_view()[i as int] == args@[i as int]@);
    }
    let w: &String = &args[i];
    let k = match table {
        SubTable::Chats => {
            if str_eq(w.as_str(), "list") {
                Some(CmdKind::ChatsList)
            } else if str_eq(w.as_str(), "print") {
                Some(CmdKind::ChatsPrint)
            } else if str_eq(w.as_str(), "info") {
                Some(CmdKind::ChatsInfo)
            } else if str_eq(w.as_str(), "archive") {
                Some(CmdKind::ChatsArchive)
            } else if str_eq(w.as_str(), "unarchive") {
                Some(CmdKind::ChatsUnarchive)
            } else {
                None
            }
        },
        SubTable::Session => {
            if str_eq(w.as_str(), "login") {
                Some(CmdKind::SessionLogin)
            } else if str_eq(w.as_str(), "logout") {
                Some(CmdKind::SessionLogout)
            } else if str_eq(w.as_str(), "status") {
                Some(CmdKind::SessionStatus)
            } else {
                None
            }
        },
        SubTable::Misc => {
            if str_eq(w.as_str(), "search") {
                Some(CmdKind::MiscSearch)
            } else if str_eq(w.as_str(), "export") {
                Some(CmdKind::MiscExport)
            } else if str_eq(w.as_str(), "contacts") {
                Some(CmdKind::MiscContacts)
            } else {
                None
            }
        },
    };
    match k {
        Some(k) => Ok(k),
        None => if is_flag(w.as_str()) {
            Err(GrammarError::UnknownFlag(w.clone()))
        } else {
            Err(GrammarError::UnknownCommand(w.clone()))
        },
    }
}

/// Parse a raw argument list (without the program name) into exactly one
/// validated invocation, or fail with the grammar error that names the
/// offending token and the violated rule. [`parse_spec`] pins the result
/// down completely: success and failure cases, defaults included.
pub fn parse(args: &Vec<String>) -> (r: Result<Invocation, GrammarError>)
    ensures
        match r {
            Ok(inv) => parse_spec(args.deep_view()) == Ok::<InvocationV, GrammarErrorV>(inv@)
                && crate::canonical::invocation_valid(inv@),
            Err(e) => parse_spec(args.deep_view()) == Err::<InvocationV, GrammarErrorV>(e@),
        },
{
    proof {
        crate::canonical::lemma_parse_valid(args.deep_view());
    }
    let (verbose, config, i) = match parse_globals(args, 0, false, None) {
        Ok(t) => t,
        Err(e) => {
            return Err(e);
        },
    };
    proof {
        assert(args.deep_view().len() == args@.len());
    }
    if i >= args.len() {
        return Err(GrammarError::MissingCommand);
    }
    proof {
        assert(args.deep_view()[i as int] == args@[i as int]@);
    }
    let w: &String = &args[i];
    if is_flag(w.as_str()) {
        Err(GrammarError::UnknownFlag(w.clone()))
    } else if str_eq(w.as_str(), "chats") {
        match sub_word(args, i + 1, SubTable::Chats) {
            Err(e) => Err(e),
            Ok(k) => finish(k, args, i + 2, verbose, config),
        }
    } else if str_eq(w.as_str(), "send") {
        finish(CmdKind::Send, args, i + 1, verbose, config)
    } else if str_eq(w.as_str(), "download") {
        finish(CmdKind::Download, args, i + 1, verbose, config)
    } else if str_eq(w.as_str(), "session") {
        match sub_word(args, i + 1, SubTable::Session) {
            Err(e) => Err(e),
            Ok(k) => finish(k, args, i + 2, verbose, config),
        }
    } else if str_eq(w.as_str(), "misc") {
        match sub_word(args, i + 1, SubTable::Misc) {
            Err(e) => Err(e),
            Ok(k) => finish(k, args, i + 2, verbose, config),
        }
    } else {
        Err(GrammarError::UnknownCommand(w.clone()))
    }
}

} // verus!
