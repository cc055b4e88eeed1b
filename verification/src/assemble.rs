//! Validation and default resolution: the second phase of parsing.
//!
//! A scanned [`RawFlags`] record is turned into a typed command value.
//! Checks run in a fixed order: required positionals first, then the
//! mutually exclusive ordering group, then numeric domains; defaults
//! (`limit=50`, `count=100`, `out="."`, `format="json"`, reverse-chronological
//! order) fill in only for fields that were entirely omitted.

use vstd::prelude::*;
use vstd::string::StrSliceExecFns;
use crate::ast::{
    ChatOrder,
    ChatsQuery,
    ChatsQueryV,
    Command,
    CommandV,
    DownloadRequest,
    DownloadRequestV,
    GrammarError,
    GrammarErrorV,
    MiscAction,
    MiscActionV,
    SendRequest,
    SendRequestV,
    SessionAction,
};
use crate::num::{dec_accepts, dec_val, parse_dec};
use crate::scan::{flag_token, CmdKind, FlagKind, RawFlags, RawFlagsV};

verus! {

/// The default limit of `chats list` and `misc search`.
pub const DEFAULT_LIMIT: usize = 50;

/// The default message count of `chats print`.
pub const DEFAULT_COUNT: usize = 100;

/// Resolve the mutually exclusive ordering group: reject two set flags
/// (naming both), keep a single set flag, default to reverse-chronological
/// when none is set.
pub open spec fn resolve_order_spec(c: bool, r: bool, a: bool) -> Result<
    ChatOrder,
    GrammarErrorV,
> {
    if c && r {
        Err(
            GrammarErrorV::ConflictingFlags(
                flag_token(FlagKind::ChronologicalOrder),
                flag_token(FlagKind::ReverseChronologicalOrder),
            ),
        )
    } else if c && a {
        Err(
            GrammarErrorV::ConflictingFlags(
                flag_token(FlagKind::ChronologicalOrder),
                flag_token(FlagKind::AlphabeticalOrder),
            ),
        )
    } else if r && a {
        Err(
            GrammarErrorV::ConflictingFlags(
                flag_token(FlagKind::ReverseChronologicalOrder),
                flag_token(FlagKind::AlphabeticalOrder),
            ),
        )
    } else if c {
        Ok(ChatOrder::Chronological)
    } else if a {
        Ok(ChatOrder::Alphabetical)
    } else {
        Ok(ChatOrder::ReverseChronological)
    }
}

/// Resolve a numeric option: the default when omitted, the value when the
/// token lies in the non-negative integer domain, an error otherwise.
pub open spec fn resolve_num_spec(v: Option<Seq<char>>, d: nat) -> Result<nat, GrammarErrorV> {
    match v {
        None => Ok(d),
        Some(s) => if dec_accepts(s) {
            Ok(dec_val(s))
        } else {
            Err(GrammarErrorV::InvalidNumber(s))
        },
    }
}

/// Resolve an optional string against its declared default.
pub open spec fn resolve_str_spec(v: Option<Seq<char>>, d: Seq<char>) -> Seq<char> {
    match v {
        None => d,
        Some(s) => s,
    }
}

/// Validate one scanned record against its command's rules and fill in the
/// declared defaults.
pub open spec fn assemble_spec(k: CmdKind, raw: RawFlagsV) -> Result<CommandV, GrammarErrorV> {
    match k {
        CmdKind::ChatsList => match resolve_order_spec(
            raw.chronological,
            raw.reverse_chronological,
            raw.alphabetical,
        ) {
            Err(e) => Err(e),
            Ok(order) => match resolve_num_spec(raw.limit, DEFAULT_LIMIT as nat) {
                Err(e) => Err(e),
                Ok(limit) => Ok(
                    CommandV::Chats(
                        ChatsQueryV::List { details: raw.details, limit, order },
                    ),
                ),
            },
        },
        CmdKind::ChatsPrint => if raw.positionals.len() < 1 {
            Err(GrammarErrorV::MissingArgument("TARGET"@))
        } else {
            match resolve_num_spec(raw.count, DEFAULT_COUNT as nat) {
                Err(e) => Err(e),
                Ok(count) => Ok(
                    CommandV::Chats(
                        ChatsQueryV::Print {
                            target: raw.positionals[0],
                            count,
                            timestamps: raw.timestamps,
                        },
                    ),
                ),
            }
        },
        CmdKind::ChatsInfo => if raw.positionals.len() < 1 {
            Err(GrammarErrorV::MissingArgument("TARGET"@))
        } else {
            Ok(CommandV::Chats(ChatsQueryV::Info { target: raw.positionals[0] }))
        },
        CmdKind::ChatsArchive => if raw.positionals.len() < 1 {
            Err(GrammarErrorV::MissingArgument("TARGET"@))
        } else {
            Ok(CommandV::Chats(ChatsQueryV::Archive { target: raw.positionals[0] }))
        },
        CmdKind::ChatsUnarchive => if raw.positionals.len() < 1 {
            Err(GrammarErrorV::MissingArgument("TARGET"@))
        } else {
            Ok(CommandV::Chats(ChatsQueryV::Unarchive { target: raw.positionals[0] }))
        },
        CmdKind::Send => if raw.positionals.len() < 1 {
            Err(GrammarErrorV::MissingArgument("TO"@))
        } else {
            Ok(
                CommandV::Send(
                    SendRequestV {
                        to: raw.positionals[0],
                        message: if raw.positionals.len() >= 2 {
                            Some(raw.positionals[1])
                        } else {
                            None
                        },
                        attach: raw.attach,
                        at: raw.at,
                    },
                ),
            )
        },
        CmdKind::Download => if raw.positionals.len() < 1 {
            Err(GrammarErrorV::MissingArgument("ATTACHMENT_ID"@))
        } else {
            Ok(
                CommandV::Download(
                    DownloadRequestV {
                        attachment_id: raw.positionals[0],
                        out: resolve_str_spec(raw.out, "."@),
                    },
                ),
            )
        },
        CmdKind::SessionLogin => Ok(CommandV::Session(SessionAction::Login)),
        CmdKind::SessionLogout => Ok(CommandV::Session(SessionAction::Logout)),
        CmdKind::SessionStatus => Ok(CommandV::Session(SessionAction::Status)),
        CmdKind::MiscSearch => if raw.positionals.len() < 1 {
            Err(GrammarErrorV::MissingArgument("QUERY"@))
        } else {
            match resolve_num_spec(raw.limit, DEFAULT_LIMIT as nat) {
                Err(e) => Err(e),
                Ok(limit) => Ok(
                    CommandV::Misc(MiscActionV::Search { query: raw.positionals[0], limit }),
                ),
            }
        },
        CmdKind::MiscExport => if raw.positionals.len() < 1 {
            Err(GrammarErrorV::MissingArgument("TARGET"@))
        } else {
            Ok(
                CommandV::Misc(
                    MiscActionV::Export {
                        target: raw.positionals[0],
                        format: resolve_str_spec(raw.format, "json"@),
                    },
                ),
            )
        },
        CmdKind::MiscContacts => Ok(CommandV::Misc(MiscActionV::Contacts { details: raw.details })),
    }
}

/// Resolve the ordering group, as [`resolve_order_spec`] describes.
fn resolve_order(c: bool, r: bool, a: bool) -> (res: Result<ChatOrder, GrammarError>)
    ensures
        match res {
            Ok(o) => resolve_order_spec(c, r, a) == Ok::<ChatOrder, GrammarErrorV>(o),
            Err(e) => resolve_order_spec(c, r, a) == Err::<ChatOrder, GrammarErrorV>(e@),
        },
{
    if c && r {
        Err(
            GrammarError::ConflictingFlags(
                "--chronological-order".to_owned(),
                "--reverse-chronological-order".to_owned(),
            ),
        )
    } else if c && a {
        Err(
            GrammarError::ConflictingFlags(
                "--chronological-order".to_owned(),
                "--alphabetical-order".to_owned(),
            ),
        )
    } else if r && a {
        Err(
            GrammarError::ConflictingFlags(
                "--reverse-chronological-order".to_owned(),
                "--alphabetical-order".to_owned(),
            ),
        )
    } else if c {
        Ok(ChatOrder::Chronological)
    } else if a {
        Ok(ChatOrder::Alphabetical)
    } else {
        Ok(ChatOrder::ReverseChronological)
    }
}

/// Resolve a numeric option, as [`resolve_num_spec`] describes.
fn resolve_num(v: Option<String>, d: usize) -> (res: Result<usize, GrammarError>)
    ensures
        match res {
            Ok(n) => resolve_num_spec(crate::ast::opt_view(v), d as nat) == Ok::<
                nat,
                GrammarErrorV,
            >(n as nat),
            Err(e) => resolve_num_spec(crate::ast::opt_view(v), d as nat) == Err::<
                nat,
                GrammarErrorV,
            >(e@),
        },
{
    match v {
        None => Ok(d),
        Some(s) => match parse_dec(s.as_str()) {
            Some(n) => Ok(n),
            None => Err(GrammarError::InvalidNumber(s)),
        },
    }
}

/// Resolve an optional string against its declared default.
fn resolve_str(v: Option<String>, d: &str) -> (res: String)
    ensures
        res@ == resolve_str_spec(crate::ast::opt_view(v), d@),
{
    match v {
        None => d.to_owned(),
        Some(s) => s,
    }
}

/// Validate one scanned record, as [`assemble_spec`] describes.
pub fn assemble(k: CmdKind, raw: RawFlags) -> (res: Result<Command, GrammarError>)
    ensures
        match res {
            Ok(c) => assemble_spec(k, raw@) == Ok::<CommandV, GrammarErrorV>(c@),
            Err(e) => assemble_spec(k, raw@) == Err::<CommandV, GrammarErrorV>(e@),
        },
{
    match k {
        CmdKind::ChatsList => {
            let order = match resolve_order(
                raw.chronological,
                raw.reverse_chronological,
                raw.alphabetical,
            ) {
                Ok(o) => o,
                Err(e) => {
                    return Err(e);
                },
            };
            let limit = match resolve_num(raw.limit, DEFAULT_LIMIT) {
                Ok(n) => n,
                Err(e) => {
                    return Err(e);
                },
            };
            Ok(Command::Chats(ChatsQuery::List { details: raw.details, limit, order }))
        },
        CmdKind::ChatsPrint => {
            if raw.positionals.len() < 1 {
                return Err(GrammarError::MissingArgument("TARGET".to_owned()));
            }
            let target = raw.positionals[0].clone();
            let count = match resolve_num(raw.count, DEFAULT_COUNT) {
                Ok(n) => n,
                Err(e) => {
                    return Err(e);
                },
            };
            Ok(Command::Chats(ChatsQuery::Print { target, count, timestamps: raw.timestamps }))
        },
        CmdKind::ChatsInfo => {
            if raw.positionals.len() < 1 {
                return Err(GrammarError::MissingArgument("TARGET".to_owned()));
            }
            Ok(Command::Chats(ChatsQuery::Info { target: raw.positionals[0].clone() }))
        },
        CmdKind::ChatsArchive => {
            if raw.positionals.len() < 1 {
                return Err(GrammarError::MissingArgument("TARGET".to_owned()));
            }
            Ok(Command::Chats(ChatsQuery::Archive { target: raw.positionals[0].clone() }))
        },
        CmdKind::ChatsUnarchive => {
            if raw.positionals.len() < 1 {
                return Err(GrammarError::MissingArgument("TARGET".to_owned()));
            }
            Ok(Command::Chats(ChatsQuery::Unarchive { target: raw.positionals[0].clone() }))
        },
        CmdKind::Send => {
            if raw.positionals.len() < 1 {
                return Err(GrammarError::MissingArgument("TO".to_owned()));
            }
            let to = raw.positionals[0].clone();
            let message = if raw.positionals.len() >= 2 {
                Some(raw.positionals[1].clone())
            } else {
                None
            };
            Ok(Command::Send(SendRequest { to, message, attach: raw.attach, at: raw.at }))
        },
        CmdKind::Download => {
            if raw.positionals.len() < 1 {
                return Err(GrammarError::MissingArgument("ATTACHMENT_ID".to_owned()));
            }
            let attachment_id = raw.positionals[0].clone();
            let out = resolve_str(raw.out, ".");
            Ok(Command::Download(DownloadRequest { attachment_id, out }))
        },
        CmdKind::SessionLogin => Ok(Command::Session(SessionAction::Login)),
        CmdKind::SessionLogout => Ok(Command::Session(SessionAction::Logout)),
        CmdKind::SessionStatus => Ok(Command::Session(SessionAction::Status)),
        CmdKind::MiscSearch => {
            if raw.positionals.len() < 1 {
                return Err(GrammarError::MissingArgument("QUERY".to_owned()));
            }
            let query = raw.positionals[0].clone();
            let limit = match resolve_num(raw.limit, DEFAULT_LIMIT) {
                Ok(n) => n,
                Err(e) => {
                    return Err(e);
                },
            };
            Ok(Command::Misc(MiscAction::Search { query, limit }))
        },
        CmdKind::MiscExport => {
            if raw.positionals.len() < 1 {
                return Err(GrammarError::MissingArgument("TARGET".to_owned()));
            }
            let target = raw.positionals[0].clone();
            let format = resolve_str(raw.format, "json");
            Ok(Command::Misc(MiscAction::Export { target, format }))
        },
        CmdKind::MiscContacts => Ok(Command::Misc(MiscAction::Contacts { details: raw.details })),
    }
}

} // verus!
