//! Token scanner: the first phase of parsing.
//!
//! After the command (and sub-command) words are recognised, the remaining
//! tokens are scanned left to right into a [`RawFlags`] record: a token
//! starting with `-` must be a flag that the current command declares
//! (value-taking flags consume the following token, whatever it is), and any
//! other token fills the next positional slot. Repeating a boolean flag is
//! idempotent; repeating a value flag keeps the last value. Validation of
//! the collected record (conflicts, numeric domain, required positionals,
//! defaults) is the second phase, in `assemble`.

use vstd::prelude::*;
use vstd::string::StrSliceExecFns;
use crate::ast::{GrammarError, GrammarErrorV};

verus! {

/// Compare two strings by their character sequences.
pub fn str_eq(a: &str, b: &str) -> (r: bool)
    ensures
        r == (a@ == b@),
{
    let n = a.unicode_len();
    if n != b.unicode_len() {
        return false;
    }
    let mut i: usize = 0;
    while i < n
        invariant
            n == a@.len() == b@.len(),
            0 <= i <= n,
            forall|j: int| 0 <= j < i ==> a@[j] == b@[j],
        decreases n - i,
    {
        if a.get_char(i) != b.get_char(i) {
            return false;
        }
        i = i + 1;
    }
    proof {
        assert(a@ =~= b@);
    }
    true
}

/// Every leaf command of the grammar.
#[derive(Clone, Copy, Debug, PartialEq, Eq, Structural)]
pub enum CmdKind {
    ChatsList,
    ChatsPrint,
    ChatsInfo,
    ChatsArchive,
    ChatsUnarchive,
    Send,
    Download,
    SessionLogin,
    SessionLogout,
    SessionStatus,
    MiscSearch,
    MiscExport,
    MiscContacts,
}

/// Every flag any leaf command declares (the global flags are handled
/// before the command word and are not scanned here).
#[derive(Clone, Copy, Debug, PartialEq, Eq, Structural)]
pub enum FlagKind {
    Details,
    Timestamps,
    ChronologicalOrder,
    ReverseChronologicalOrder,
    AlphabeticalOrder,
    Limit,
    Count,
    Attach,
    At,
    Out,
    Format,
}

/// The token that names a flag on the command line.
pub open spec fn flag_token(f: FlagKind) -> Seq<char> {
    match f {
        FlagKind::Details => "--details"@,
        FlagKind::Timestamps => "--timestamps"@,
        FlagKind::ChronologicalOrder => "--chronological-order"@,
        FlagKind::ReverseChronologicalOrder => "--reverse-chronological-order"@,
        FlagKind::AlphabeticalOrder => "--alphabetical-order"@,
        FlagKind::Limit => "--limit"@,
        FlagKind::Count => "--count"@,
        FlagKind::Attach => "--attach"@,
        FlagKind::At => "--at"@,
        FlagKind::Out => "--out"@,
        FlagKind::Format => "--format"@,
    }
}

/// Does this flag take a value token after it?
pub open spec fn is_value_flag(f: FlagKind) -> bool {
    match f {
        FlagKind::Limit => true,
        FlagKind::Count => true,
        FlagKind::Attach => true,
        FlagKind::At => true,
        FlagKind::Out => true,
        FlagKind::Format => true,
        _ => false,
    }
}

/// A token is treated as a flag exactly when it starts with `-`.
pub open spec fn is_flag_token(t: Seq<char>) -> bool {
    t.len() > 0 && t[0] == '-'
}

/// Which flag a token names, if any.
pub open spec fn flag_of_spec(t: Seq<char>) -> Option<FlagKind> {
    if t == flag_token(FlagKind::Details) {
        Some(FlagKind::Details)
    } else if t == flag_token(FlagKind::Timestamps) {
        Some(FlagKind::Timestamps)
    } else if t == flag_token(FlagKind::ChronologicalOrder) {
        Some(FlagKind::ChronologicalOrder)
    } else if t == flag_token(FlagKind::ReverseChronologicalOrder) {
        Some(FlagKind::ReverseChronologicalOrder)
    } else if t == flag_token(FlagKind::AlphabeticalOrder) {
        Some(FlagKind::AlphabeticalOrder)
    } else if t == flag_token(FlagKind::Limit) {
        Some(FlagKind::Limit)
    } else if t == flag_token(FlagKind::Count) {
        Some(FlagKind::Count)
    } else if t == flag_token(FlagKind::Attach) {
        Some(FlagKind::Attach)
    } else if t == flag_token(FlagKind::At) {
        Some(FlagKind::At)
    } else if t == flag_token(FlagKind::Out) {
        Some(FlagKind::Out)
    } else if t == flag_token(FlagKind::Format) {
        Some(FlagKind::Format)
    } else {
        None
    }
}

/// Which flags a command declares.
pub open spec fn allows(k: CmdKind, f: FlagKind) -> bool {
    match k {
        CmdKind::ChatsList => f == FlagKind::Details || f == FlagKind::Limit || f
            == FlagKind::ChronologicalOrder || f == FlagKind::ReverseChronologicalOrder || f
            == FlagKind::AlphabeticalOrder,
        CmdKind::ChatsPrint => f == FlagKind::Count || f == FlagKind::Timestamps,
        CmdKind::Send => f == FlagKind::Attach || f == FlagKind::At,
        CmdKind::Download => f == FlagKind::Out,
        CmdKind::MiscSearch => f == FlagKind::Limit,
        CmdKind::MiscExport => f == FlagKind::Format,
        CmdKind::MiscContacts => f == FlagKind::Details,
        _ => false,
    }
}

/// How many positional arguments a command accepts.
pub open spec fn max_pos_spec(k: CmdKind) -> nat {
    match k {
        CmdKind::ChatsList => 0,
        CmdKind::ChatsPrint => 1,
        CmdKind::ChatsInfo => 1,
        CmdKind::ChatsArchive => 1,
        CmdKind::ChatsUnarchive => 1,
        CmdKind::Send => 2,
        CmdKind::Download => 1,
        CmdKind::SessionLogin => 0,
        CmdKind::SessionLogout => 0,
        CmdKind::SessionStatus => 0,
        CmdKind::MiscSearch => 1,
        CmdKind::MiscExport => 1,
        CmdKind::MiscContacts => 0,
    }
}

/// Everything one scan pass collects, before validation.
pub struct RawFlags {
    pub details: bool,
    pub timestamps: bool,
    pub chronological: bool,
    pub reverse_chronological: bool,
    pub alphabetical: bool,
    pub limit: Option<String>,
    pub count: Option<String>,
    pub attach: Option<String>,
    pub at: Option<String>,
    pub out: Option<String>,
    pub format: Option<String>,
    pub positionals: Vec<String>,
}

/// Ghost view of [`RawFlags`].
pub struct RawFlagsV {
    pub details: bool,
    pub timestamps: bool,
    pub chronological: bool,
    pub reverse_chronological: bool,
    pub alphabetical: bool,
    pub limit: Option<Seq<char>>,
    pub count: Option<Seq<char>>,
    pub attach: Option<Seq<char>>,
    pub at: Option<Seq<char>>,
    pub out: Option<Seq<char>>,
    pub format: Option<Seq<char>>,
    pub positionals: Seq<Seq<char>>,
}

impl View for RawFlags {
    type V = RawFlagsV;

    open spec fn view(&self) -> RawFlagsV {
        RawFlagsV {
            details: self.details,
            timestamps: self.timestamps,
            chronological: self.chronological,
            reverse_chronological: self.reverse_chronological,
            alphabetical: self.alphabetical,
            limit: crate::ast::opt_view(self.limit),
            count: crate::ast::opt_view(self.count),
            attach: crate::ast::opt_view(self.attach),
            at: crate::ast::opt_view(self.at),
            out: crate::ast::opt_view(self.out),
            format: crate::ast::opt_view(self.format),
            positionals: self.positionals.deep_view(),
        }
    }
}

/// The record a scan starts from: nothing set, nothing collected.
pub open spec fn raw_empty() -> RawFlagsV {
    RawFlagsV {
        details: false,
        timestamps: false,
        chronological: false,
        reverse_chronological: false,
        alphabetical: false,
        limit: None,
        count: None,
        attach: None,
        at: None,
        out: None,
        format: None,
        positionals: Seq::empty(),
    }
}

/// Record a boolean flag.
pub open spec fn set_bool_flag(r: RawFlagsV, f: FlagKind) -> RawFlagsV {
    match f {
        FlagKind::Details => RawFlagsV { details: true, ..r },
        FlagKind::Timestamps => RawFlagsV { timestamps: true, ..r },
        FlagKind::ChronologicalOrder => RawFlagsV { chronological: true, ..r },
        FlagKind::ReverseChronologicalOrder => RawFlagsV { reverse_chronological: true, ..r },
        FlagKind::AlphabeticalOrder => RawFlagsV { alphabetical: true, ..r },
        _ => r,
    }
}

/// Record a value flag; the last occurrence wins.
pub open spec fn set_value_flag(r: RawFlagsV, f: FlagKind, v: Seq<char>) -> RawFlagsV {
    match f {
        FlagKind::Limit => RawFlagsV { limit: Some(v), ..r },
        FlagKind::Count => RawFlagsV { count: Some(v), ..r },
        FlagKind::Attach => RawFlagsV { attach: Some(v), ..r },
        FlagKind::At => RawFlagsV { at: Some(v), ..r },
        FlagKind::Out => RawFlagsV { out: Some(v), ..r },
        FlagKind::Format => RawFlagsV { format: Some(v), ..r },
        _ => r,
    }
}

/// Record the next positional argument.
pub open spec fn push_positional(r: RawFlagsV, t: Seq<char>) -> RawFlagsV {
    RawFlagsV { positionals: r.positionals.push(t), ..r }
}

/// One scan pass over `args[i..]`, collecting into `acc`.
pub open spec fn scan_spec(k: CmdKind, args: Seq<Seq<char>>, i: nat, acc: RawFlagsV) -> Result<
    RawFlagsV,
    GrammarErrorV,
>
    decreases args.len() - i,
{
    if i >= args.len() {
        Ok(acc)
    } else {
        let t = args[i as int];
        if is_flag_token(t) {
            match flag_of_spec(t) {
                Some(f) => if allows(k, f) {
                    if !is_value_flag(f) {
                        scan_spec(k, args, i + 1, set_bool_flag(acc, f))
                    } else if i + 1 < args.len() {
                        scan_spec(k, args, i + 2, set_value_flag(acc, f, args[i + 1 as int]))
                    } else {
                        Err(GrammarErrorV::MissingValue(t))
                    }
                } else {
                    Err(GrammarErrorV::UnknownFlag(t))
                },
                None => Err(GrammarErrorV::UnknownFlag(t)),
            }
        } else if acc.positionals.len() < max_pos_spec(k) {
            scan_spec(k, args, i + 1, push_positional(acc, t))
        } else {
            Err(GrammarErrorV::UnexpectedArgument(t))
        }
    }
}

/// Which flag a token names, if any.
fn flag_of(t: &str) -> (r: Option<FlagKind>)
    ensures
        r == flag_of_spec(t@),
{
    if str_eq(t, "--details") {
        Some(FlagKind::Details)
    } else if str_eq(t, "--timestamps") {
        Some(FlagKind::Timestamps)
    } else if str_eq(t, "--chronological-order") {
        Some(FlagKind::ChronologicalOrder)
    } else if str_eq(t, "--reverse-chronological-order") {
        Some(FlagKind::ReverseChronologicalOrder)
    } else if str_eq(t, "--alphabetical-order") {
        Some(FlagKind::AlphabeticalOrder)
    } else if str_eq(t, "--limit") {
        Some(FlagKind::Limit)
    } else if str_eq(t, "--count") {
        Some(FlagKind::Count)
    } else if str_eq(t, "--attach") {
        Some(FlagKind::Attach)
    } else if str_eq(t, "--at") {
        Some(FlagKind::At)
    } else if str_eq(t, "--out") {
        Some(FlagKind::Out)
    } else if str_eq(t, "--format") {
        Some(FlagKind::Format)
    } else {
        None
    }
}

/// Is this token treated as a flag?
pub fn is_flag(t: &str) -> (r: bool)
    ensures
        r == is_flag_token(t@),
{
    t.unicode_len() > 0 && t.get_char(0) == '-'
}

/// How many positional arguments a command accepts.
fn max_pos(k: CmdKind) -> (r: usize)
    ensures
        r as nat == max_pos_spec(k),
{
    match k {
        CmdKind::ChatsList => 0,
        CmdKind::ChatsPrint => 1,
        CmdKind::ChatsInfo => 1,
        CmdKind::ChatsArchive => 1,
        CmdKind::ChatsUnarchive => 1,
        CmdKind::Send => 2,
        CmdKind::Download => 1,
        CmdKind::SessionLogin => 0,
        CmdKind::SessionLogout => 0,
        CmdKind::SessionStatus => 0,
        CmdKind::MiscSearch => 1,
        CmdKind::MiscExport => 1,
        CmdKind::MiscContacts => 0,
    }
}

/// A record with nothing set and nothing collected.
pub fn new_raw() -> (r: RawFlags)
    ensures
        r@ == raw_empty(),
{
    let r = RawFlags {
        details: false,
        timestamps: false,
        chronological: false,
        reverse_chronological: false,
        alphabetical: false,
        limit: None,
        count: None,
        attach: None,
        at: None,
        out: None,
        format: None,
        positionals: Vec::new(),
    };
    proof {
        assert(r@.positionals =~= raw_empty().positionals);
    }
    r
}

/// Record a boolean flag.
fn set_bool(acc: RawFlags, f: FlagKind) -> (r: RawFlags)
    requires
        !is_value_flag(f),
    ensures
        r@ == set_bool_flag(acc@, f),
{
    match f {
        FlagKind::Details => RawFlags { details: true, ..acc },
        FlagKind::Timestamps => RawFlags { timestamps: true, ..acc },
        FlagKind::ChronologicalOrder => RawFlags { chronological: true, ..acc },
        FlagKind::ReverseChronologicalOrder => RawFlags { reverse_chronological: true, ..acc },
        FlagKind::AlphabeticalOrder => RawFlags { alphabetical: true, ..acc },
        _ => acc,
    }
}

/// Record a value flag; the last occurrence wins.
fn set_value(acc: RawFlags, f: FlagKind, v: String) -> (r: RawFlags)
    requires
        is_value_flag(f),
    ensures
        r@ == set_value_flag(acc@, f, v@),
{
    match f {
        FlagKind::Limit => RawFlags { limit: Some(v), ..acc },
        FlagKind::Count => RawFlags { count: Some(v), ..acc },
        FlagKind::Attach => RawFlags { attach: Some(v), ..acc },
        FlagKind::At => RawFlags { at: Some(v), ..acc },
        FlagKind::Out => RawFlags { out: Some(v), ..acc },
        _ => RawFlags { format: Some(v), ..acc },
    }
}

/// Does this flag take a value token after it?
fn is_value_flag_x(f: FlagKind) -> (r: bool)
    ensures
        r == is_value_flag(f),
{
    match f {
        FlagKind::Limit | FlagKind::Count | FlagKind::Attach | FlagKind::At | FlagKind::Out
            | FlagKind::Format => true,
        _ => false,
    }
}

/// Which flags a command declares.
fn allows_x(k: CmdKind, f: FlagKind) -> (r: bool)
    ensures
        r == allows(k, f),
{
    match (k, f) {
        (
            CmdKind::ChatsList,
            FlagKind::Details | FlagKind::Limit | FlagKind::ChronologicalOrder
                | FlagKind::ReverseChronologicalOrder | FlagKind::AlphabeticalOrder,
        ) => true,
        (CmdKind::ChatsPrint, FlagKind::Count | FlagKind::Timestamps) => true,
        (CmdKind::Send, FlagKind::Attach | FlagKind::At) => true,
        (CmdKind::Download, FlagKind::Out) => true,
        (CmdKind::MiscSearch, FlagKind::Limit) => true,
        (CmdKind::MiscExport, FlagKind::Format) => true,
        (CmdKind::MiscContacts, FlagKind::Details) => true,
        _ => false,
    }
}

/// Scan `args[i..]` into `acc`, as [`scan_spec`] describes.
pub fn scan(k: CmdKind, args: &Vec<String>, i: usize, acc: RawFlags) -> (r: Result<
    RawFlags,
    GrammarError,
>)
    requires
        i <= args.len(),
    ensures
        match r {
            Ok(raw) => scan_spec(k, args.deep_view(), i as nat, acc@) == Ok::<
                RawFlagsV,
                GrammarErrorV,
            >(raw@),
            Err(e) => scan_spec(k, args.deep_view(), i as nat, acc@) == Err::<
                RawFlagsV,
                GrammarErrorV,
            >(e@),
        },
    decreases args.len() - i,
{
    proof {
        assert(args.deep_view().len() == args@.len());
    }
    if i >= args.len() {
        return Ok(acc);
    }
    let t: &String = &args[i];
    proof {
        assert(args.deep_view()[i as int] == args@[i as int]@);
    }
    if is_flag(t.as_str()) {
        match flag_of(t.as_str()) {
            Some(f) => {
                if !allows_x(k, f) {
                    Err(GrammarError::UnknownFlag(t.clone()))
                } else if !is_value_flag_x(f) {
                    scan(k, args, i + 1, set_bool(acc, f))
                } else if i + 1 < args.len() {
                    proof {
                        assert(args.deep_view()[i + 1] == args@[i + 1]@);
                    }
                    let v = args[i + 1].clone();
                    scan(k, args, i + 2, set_value(acc, f, v))
                } else {
                    Err(GrammarError::MissingValue(t.clone()))
                }
            },
            None => Err(GrammarError::UnknownFlag(t.clone())),
        }
    } else if acc.positionals.len() < max_pos(k) {
        let v = t.clone();
        let mut acc2 = acc;
        acc2.positionals.push(v);
        proof {
            assert(acc2@.positionals =~= push_positional(acc@, args@[i as int]@).positionals);
            assert(acc2@ == push_positional(acc@, args.deep_view()[i as int]));
        }
        scan(k, args, i + 1, acc2)
    } else {
        Err(GrammarError::UnexpectedArgument(t.clone()))
    }
}

/// Every flag token names its own flag, and is shaped like a flag.
pub proof fn lemma_flag_token_facts()
    ensures
        forall|f: FlagKind| #[trigger] flag_of_spec(flag_token(f)) == Some(f),
        forall|f: FlagKind| #[trigger] is_flag_token(flag_token(f)),
{
    reveal_strlit("--details");
    reveal_strlit("--timestamps");
    reveal_strlit("--chronological-order");
    reveal_strlit("--reverse-chronological-order");
    reveal_strlit("--alphabetical-order");
    reveal_strlit("--limit");
    reveal_strlit("--count");
    reveal_strlit("--attach");
    reveal_strlit("--at");
    reveal_strlit("--out");
    reveal_strlit("--format");
    assert("--details"@.len() == 9);
    assert("--timestamps"@.len() == 12);
    assert("--chronological-order"@.len() == 21);
    assert("--reverse-chronological-order"@.len() == 29);
    assert("--alphabetical-order"@.len() == 20);
    assert("--limit"@.len() == 7);
    assert("--count"@.len() == 7);
    assert("--attach"@.len() == 8);
    assert("--at"@.len() == 4);
    assert("--out"@.len() == 5);
    assert("--format"@.len() == 8);
    assert("--count"@[2] == 'c' && "--limit"@[2] == 'l');
    assert("--format"@[2] == 'f' && "--attach"@[2] == 'a');
    assert forall|f: FlagKind| #[trigger] flag_of_spec(flag_token(f)) == Some(f) by {
        match f {
            FlagKind::Details => assert(flag_of_spec(flag_token(f)) == Some(f)),
            FlagKind::Timestamps => assert(flag_of_spec(flag_token(f)) == Some(f)),
            FlagKind::ChronologicalOrder => assert(flag_of_spec(flag_token(f)) == Some(f)),
            FlagKind::ReverseChronologicalOrder => assert(flag_of_spec(flag_token(f)) == Some(f)),
            FlagKind::AlphabeticalOrder => assert(flag_of_spec(flag_token(f)) == Some(f)),
            FlagKind::Limit => assert(flag_of_spec(flag_token(f)) == Some(f)),
            FlagKind::Count => assert(flag_of_spec(flag_token(f)) == Some(f)),
            FlagKind::Attach => assert(flag_of_spec(flag_token(f)) == Some(f)),
            FlagKind::At => assert(flag_of_spec(flag_token(f)) == Some(f)),
            FlagKind::Out => assert(flag_of_spec(flag_token(f)) == Some(f)),
            FlagKind::Format => assert(flag_of_spec(flag_token(f)) == Some(f)),
        }
    }
    assert forall|f: FlagKind| #[trigger] is_flag_token(flag_token(f)) by {
        match f {
            FlagKind::Details => assert(is_flag_token(flag_token(f))),
            FlagKind::Timestamps => assert(is_flag_token(flag_token(f))),
            FlagKind::ChronologicalOrder => assert(is_flag_token(flag_token(f))),
            FlagKind::ReverseChronologicalOrder => assert(is_flag_token(flag_token(f))),
            FlagKind::AlphabeticalOrder => assert(is_flag_token(flag_token(f))),
            FlagKind::Limit => assert(is_flag_token(flag_token(f))),
            FlagKind::Count => assert(is_flag_token(flag_token(f))),
            FlagKind::Attach => assert(is_flag_token(flag_token(f))),
            FlagKind::At => assert(is_flag_token(flag_token(f))),
            FlagKind::Out => assert(is_flag_token(flag_token(f))),
            FlagKind::Format => assert(is_flag_token(flag_token(f))),
        }
    }
}

/// A scan past the end of the argument list yields the record as it stands.
pub proof fn lemma_scan_end(k: CmdKind, args: Seq<Seq<char>>, i: nat, acc: RawFlagsV)
    requires
        i >= args.len(),
    ensures
        scan_spec(k, args, i, acc) == Ok::<RawFlagsV, GrammarErrorV>(acc),
{
}

/// A declared boolean flag advances the scan by one token.
pub proof fn lemma_scan_bool(k: CmdKind, args: Seq<Seq<char>>, i: nat, acc: RawFlagsV, f: FlagKind)
    requires
        i < args.len(),
        args[i as int] == flag_token(f),
        allows(k, f),
        !is_value_flag(f),
    ensures
        scan_spec(k, args, i, acc) == scan_spec(k, args, i + 1, set_bool_flag(acc, f)),
{
    lemma_flag_token_facts();
}

/// A declared value flag consumes the following token and advances by two.
pub proof fn lemma_scan_value(k: CmdKind, args: Seq<Seq<char>>, i: nat, acc: RawFlagsV, f: FlagKind)
    requires
        i + 1 < args.len(),
        args[i as int] == flag_token(f),
        allows(k, f),
        is_value_flag(f),
    ensures
        scan_spec(k, args, i, acc) == scan_spec(
            k,
            args,
            i + 2,
            set_value_flag(acc, f, args[i + 1 as int]),
        ),
{
    lemma_flag_token_facts();
}

/// Positional arguments only ever come from non-flag tokens: a scan
/// started on a record whose positionals do not read as flags ends with
/// one whose positionals do not either.
pub proof fn lemma_scan_positionals(k: CmdKind, args: Seq<Seq<char>>, i: nat, acc: RawFlagsV)
    requires
        forall|j: int|
            0 <= j < acc.positionals.len() ==> !is_flag_token(#[trigger] acc.positionals[j]),
    ensures
        ({
            match scan_spec(k, args, i, acc) {
                Ok(out) => forall|j: int|
                    0 <= j < out.positionals.len() ==> !is_flag_token(
                        #[trigger] out.positionals[j],
                    ),
                Err(_) => true,
            }
        }),
    decreases args.len() - i,
{
    if i < args.len() {
        let t = args[i as int];
        if is_flag_token(t) {
            match flag_of_spec(t) {
                Some(f) => {
                    if allows(k, f) {
                        if !is_value_flag(f) {
                            lemma_scan_positionals(k, args, i + 1, set_bool_flag(acc, f));
                        } else if i + 1 < args.len() {
                            lemma_scan_positionals(
                                k,
                                args,
                                i + 2,
                                set_value_flag(acc, f, args[i + 1 as int]),
                            );
                        }
                    }
                },
                None => {},
            }
        } else if acc.positionals.len() < max_pos_spec(k) {
            let acc2 = push_positional(acc, t);
            assert forall|j: int| 0 <= j < acc2.positionals.len() implies !is_flag_token(
                #[trigger] acc2.positionals[j],
            ) by {
                if j < acc.positionals.len() {
                    assert(acc2.positionals[j] == acc.positionals[j]);
                }
            }
            lemma_scan_positionals(k, args, i + 1, acc2);
        }
    }
}

/// A non-flag token fills the next free positional slot.
pub proof fn lemma_scan_pos(k: CmdKind, args: Seq<Seq<char>>, i: nat, acc: RawFlagsV)
    requires
        i < args.len(),
        !is_flag_token(args[i as int]),
        acc.positionals.len() < max_pos_spec(k),
    ensures
        scan_spec(k, args, i, acc) == scan_spec(
            k,
            args,
            i + 1,
            push_positional(acc, args[i as int]),
        ),
{
}

} // verus!
