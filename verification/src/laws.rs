//! The grammar's validation laws, stated and proved once for all inputs.
//!
//! "Specifying a flag" means the scan records it on the listing command; a
//! token standing in a value position (say, after `--limit` or `--config`)
//! spells a value there, not a flag. The laws below cover the mutually
//! exclusive ordering group (rejection naming both flags, and the
//! reverse-chronological default), and the numeric domain; every rejection
//! is a parse-time error, so no handler runs on a rejected invocation.

use vstd::prelude::*;
use crate::assemble::{assemble_spec, resolve_num_spec};
use crate::ast::{ChatOrder, ChatsQueryV, CommandV, GrammarErrorV};
use crate::num::dec_accepts;
use crate::parser::parse_spec;
use crate::scan::{
    allows,
    flag_of_spec,
    flag_token,
    is_flag_token,
    is_value_flag,
    max_pos_spec,
    push_positional,
    raw_empty,
    scan_spec,
    set_bool_flag,
    set_value_flag,
    CmdKind,
    FlagKind,
    RawFlagsV,
};

verus! {

/// The record marks `t` as a given ordering flag.
pub open spec fn order_flag_given(raw: RawFlagsV, t: Seq<char>) -> bool {
    (t == flag_token(FlagKind::ChronologicalOrder) && raw.chronological) || (t == flag_token(
        FlagKind::ReverseChronologicalOrder,
    ) && raw.reverse_chronological) || (t == flag_token(FlagKind::AlphabeticalOrder)
        && raw.alphabetical)
}

/// Specifying two or more of the mutually exclusive ordering flags on the
/// listing command makes validation fail, with an error that names two
/// distinct flags that were both given.
pub proof fn lemma_ordering_conflict(raw: RawFlagsV)
    requires
        (raw.chronological && raw.reverse_chronological) || (raw.chronological
            && raw.alphabetical) || (raw.reverse_chronological && raw.alphabetical),
    ensures
        assemble_spec(CmdKind::ChatsList, raw) is Err,
        ({
            match assemble_spec(CmdKind::ChatsList, raw) {
                Err(GrammarErrorV::ConflictingFlags(a, b)) => a != b && order_flag_given(raw, a)
                    && order_flag_given(raw, b),
                _ => false,
            }
        }),
{
    reveal_strlit("--chronological-order");
    reveal_strlit("--reverse-chronological-order");
    reveal_strlit("--alphabetical-order");
    assert("--chronological-order"@.len() == 21 && "--reverse-chronological-order"@.len() == 29
        && "--alphabetical-order"@.len() == 20);
}

/// With none of the ordering flags specified, successful validation of the
/// listing command resolves the order to reverse-chronological.
pub proof fn lemma_ordering_default(raw: RawFlagsV)
    requires
        !raw.chronological,
        !raw.reverse_chronological,
        !raw.alphabetical,
    ensures
        ({
            match assemble_spec(CmdKind::ChatsList, raw) {
                Ok(c) => c matches CommandV::Chats(ChatsQueryV::List { order, .. })
                    && order == ChatOrder::ReverseChronological,
                Err(_) => true,
            }
        }),
{
}

/// A scan over tokens among which no ordering-flag token occurs leaves the
/// three ordering marks exactly as they stood.
proof fn lemma_scan_no_order_token(k: CmdKind, args: Seq<Seq<char>>, i: nat, acc: RawFlagsV)
    requires
        forall|j: int|
            i <= j < args.len() ==> #[trigger] args[j] != flag_token(
                FlagKind::ChronologicalOrder,
            ) && args[j] != flag_token(FlagKind::ReverseChronologicalOrder) && args[j]
                != flag_token(FlagKind::AlphabeticalOrder),
    ensures
        ({
            match scan_spec(k, args, i, acc) {
                Ok(out) => out.chronological == acc.chronological && out.reverse_chronological
                    == acc.reverse_chronological && out.alphabetical == acc.alphabetical,
                Err(_) => true,
            }
        }),
    decreases args.len() - i,
{
    if i < args.len() {
        let t = args[i as int];
        if is_flag_token(t) {
            match flag_of_spec(t) {
                Some(f) => {
                    assert(t == flag_token(f));
                    if allows(k, f) {
                        if !is_value_flag(f) {
                            lemma_scan_no_order_token(k, args, i + 1, set_bool_flag(acc, f));
                        } else if i + 1 < args.len() {
                            lemma_scan_no_order_token(
                                k,
                                args,
                                i + 2,
                                set_value_flag(acc, f, args[i + 1 as int]),
                            );
                        }
                    }
                },
                None => {},
            }
        } else if acc.positionals.len() < max_pos_spec(k) {
            lemma_scan_no_order_token(k, args, i + 1, push_positional(acc, t));
        }
    }
}

/// For every invocation of the listing command that specifies none of the
/// ordering flags — here, whose argument list holds no ordering-flag token
/// at all — the resolved order defaults to reverse-chronological.
pub proof fn lemma_default_order(args: Seq<Seq<char>>)
    requires
        forall|j: int|
            0 <= j < args.len() ==> #[trigger] args[j] != flag_token(
                FlagKind::ChronologicalOrder,
            ) && args[j] != flag_token(FlagKind::ReverseChronologicalOrder) && args[j]
                != flag_token(FlagKind::AlphabeticalOrder),
    ensures
        ({
            match parse_spec(args) {
                Ok(inv) => match inv.command {
                    CommandV::Chats(ChatsQueryV::List { order, .. }) => order
                        == ChatOrder::ReverseChronological,
                    _ => true,
                },
                Err(_) => true,
            }
        }),
{
    match crate::parser::parse_globals_spec(args, 0, false, None) {
        Err(_) => {},
        Ok((verbose, config, gi)) => {
            lemma_scan_no_order_token(CmdKind::ChatsList, args, gi + 2, raw_empty());
        },
    }
}

/// An ordering mark the scan sets comes from its flag token standing among
/// the scanned tokens: the scan never invents a flag.
proof fn lemma_scan_order_origin(k: CmdKind, args: Seq<Seq<char>>, i: nat, acc: RawFlagsV)
    ensures
        ({
            match scan_spec(k, args, i, acc) {
                Ok(out) => (out.chronological ==> acc.chronological || exists|j: int|
                    i <= j < args.len() && args[j] == flag_token(FlagKind::ChronologicalOrder)) && (
                out.reverse_chronological ==> acc.reverse_chronological || exists|j: int|
                    i <= j < args.len() && args[j] == flag_token(
                        FlagKind::ReverseChronologicalOrder,
                    )) && (out.alphabetical ==> acc.alphabetical || exists|j: int|
                    i <= j < args.len() && args[j] == flag_token(FlagKind::AlphabeticalOrder)),
                Err(_) => true,
            }
        }),
    decreases args.len() - i,
{
    if i < args.len() {
        let t = args[i as int];
        if is_flag_token(t) {
            match flag_of_spec(t) {
                Some(f) => {
                    assert(t == flag_token(f));
                    if allows(k, f) {
                        if !is_value_flag(f) {
                            lemma_scan_order_origin(k, args, i + 1, set_bool_flag(acc, f));
                        } else if i + 1 < args.len() {
                            lemma_scan_order_origin(
                                k,
                                args,
                                i + 2,
                                set_value_flag(acc, f, args[i + 1 as int]),
                            );
                        }
                    }
                },
                None => {},
            }
        } else if acc.positionals.len() < max_pos_spec(k) {
            lemma_scan_order_origin(k, args, i + 1, push_positional(acc, t));
        }
    }
}

/// Specifying two or more ordering flags on the listing command makes the
/// whole parse of that command fail, with an error naming two distinct
/// conflicting flags, both of which stand among the scanned tokens.
pub proof fn lemma_ordering_conflict_parse(
    args: Seq<Seq<char>>,
    i: nat,
    verbose: bool,
    config: Option<Seq<char>>,
)
    requires
        ({
            match scan_spec(CmdKind::ChatsList, args, i, raw_empty()) {
                Ok(out) => (out.chronological && out.reverse_chronological) || (out.chronological
                    && out.alphabetical) || (out.reverse_chronological && out.alphabetical),
                Err(_) => false,
            }
        }),
    ensures
        crate::parser::finish_spec(CmdKind::ChatsList, args, i, verbose, config) is Err,
        ({
            match crate::parser::finish_spec(CmdKind::ChatsList, args, i, verbose, config) {
                Err(GrammarErrorV::ConflictingFlags(a, b)) => a != b && (exists|j: int|
                    i <= j < args.len() && args[j] == a) && (exists|j: int|
                    i <= j < args.len() && args[j] == b),
                _ => false,
            }
        }),
{
    let out = scan_spec(CmdKind::ChatsList, args, i, raw_empty())->Ok_0;
    lemma_ordering_conflict(out);
    lemma_scan_order_origin(CmdKind::ChatsList, args, i, raw_empty());
}

/// A present numeric option is accepted exactly on the non-negative integer
/// domain, and rejected with an error naming its token.
pub proof fn lemma_numeric_domain(v: Option<Seq<char>>, d: nat)
    ensures
        resolve_num_spec(v, d) is Err <==> (v matches Some(s) && !dec_accepts(s)),
        v matches Some(s) ==> (!dec_accepts(s) ==> resolve_num_spec(v, d) == Err::<
            nat,
            GrammarErrorV,
        >(GrammarErrorV::InvalidNumber(s))),
        v is None ==> resolve_num_spec(v, d) == Ok::<nat, GrammarErrorV>(d),
{
}

} // verus!
