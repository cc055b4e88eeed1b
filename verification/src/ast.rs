//! The parsed-invocation data model and its specification-level view.
//!
//! Every entity is a pure value describing one validated command-line call:
//! created by the parser, consumed once by dispatch, never mutated. Each
//! executable type has a deep view (`@`) into a ghost counterpart whose
//! strings are `Seq<char>` and whose numbers are `nat`; all contracts in this
//! crate speak about those views.

use vstd::prelude::*;

verus! {

/// Ordering of the chat listing once defaults are resolved. At most one of
/// the three ordering flags may be given; when none is, the listing defaults
/// to reverse-chronological order.
#[derive(Clone, Copy, Debug, PartialEq, Eq, Structural)]
pub enum ChatOrder {
    Chronological,
    ReverseChronological,
    Alphabetical,
}

/// Session management actions.
#[derive(Clone, Copy, Debug, PartialEq, Eq, Structural)]
pub enum SessionAction {
    Login,
    Logout,
    Status,
}

/// Sub-commands of `chats`.
#[derive(Clone, Debug, PartialEq, Eq)]
pub enum ChatsQuery {
    List { details: bool, limit: usize, order: ChatOrder },
    Print { target: String, count: usize, timestamps: bool },
    Info { target: String },
    Archive { target: String },
    Unarchive { target: String },
}

/// A validated `send` command. When `message` is absent the dispatcher reads
/// the message body from standard input before dispatch.
#[derive(Clone, Debug, PartialEq, Eq)]
pub struct SendRequest {
    pub to: String,
    pub message: Option<String>,
    pub attach: Option<String>,
    pub at: Option<String>,
}

/// A validated `download` command; `out` defaults to `.` when omitted.
#[derive(Clone, Debug, PartialEq, Eq)]
pub struct DownloadRequest {
    pub attachment_id: String,
    pub out: String,
}

/// Sub-commands of `misc`.
#[derive(Clone, Debug, PartialEq, Eq)]
pub enum MiscAction {
    Search { query: String, limit: usize },
    Export { target: String, format: String },
    Contacts { details: bool },
}

/// The command selected by an invocation; exactly one variant is active.
#[derive(Clone, Debug, PartialEq, Eq)]
pub enum Command {
    Chats(ChatsQuery),
    Send(SendRequest),
    Download(DownloadRequest),
    Session(SessionAction),
    Misc(MiscAction),
}

/// One fully parsed, validated command-line call.
#[derive(Clone, Debug, PartialEq, Eq)]
pub struct Invocation {
    pub verbose: bool,
    pub config: Option<String>,
    pub command: Command,
}

/// A grammar-validation failure, carrying the offending token (or the name
/// of the missing piece). No handler runs when parsing fails.
#[derive(Clone, Debug, PartialEq, Eq)]
pub enum GrammarError {
    /// No command word (or no sub-command word) was given.
    MissingCommand,
    /// A command word that the grammar does not declare.
    UnknownCommand(String),
    /// A token starting with `-` that the grammar does not declare here.
    UnknownFlag(String),
    /// A value-taking flag stood last, with no value after it.
    MissingValue(String),
    /// A required positional argument (named by its placeholder) was omitted.
    MissingArgument(String),
    /// A positional argument beyond what the command accepts.
    UnexpectedArgument(String),
    /// Two mutually exclusive flags were both given; carries both names.
    ConflictingFlags(String, String),
    /// A numeric option value outside the non-negative integer domain.
    InvalidNumber(String),
}

/// Ghost view of [`ChatsQuery`].
pub enum ChatsQueryV {
    List { details: bool, limit: nat, order: ChatOrder },
    Print { target: Seq<char>, count: nat, timestamps: bool },
    Info { target: Seq<char> },
    Archive { target: Seq<char> },
    Unarchive { target: Seq<char> },
}

/// Ghost view of [`SendRequest`].
pub struct SendRequestV {
    pub to: Seq<char>,
    pub message: Option<Seq<char>>,
    pub attach: Option<Seq<char>>,
    pub at: Option<Seq<char>>,
}

/// Ghost view of [`DownloadRequest`].
pub struct DownloadRequestV {
    pub attachment_id: Seq<char>,
    pub out: Seq<char>,
}

/// Ghost view of [`MiscAction`].
pub enum MiscActionV {
    Search { query: Seq<char>, limit: nat },
    Export { target: Seq<char>, format: Seq<char> },
    Contacts { details: bool },
}

/// Ghost view of [`Command`].
pub enum CommandV {
    Chats(ChatsQueryV),
    Send(SendRequestV),
    Download(DownloadRequestV),
    Session(SessionAction),
    Misc(MiscActionV),
}

/// Ghost view of [`Invocation`].
pub struct InvocationV {
    pub verbose: bool,
    pub config: Option<Seq<char>>,
    pub command: CommandV,
}

/// Ghost view of [`GrammarError`].
pub enum GrammarErrorV {
    MissingCommand,
    UnknownCommand(Seq<char>),
    UnknownFlag(Seq<char>),
    MissingValue(Seq<char>),
    MissingArgument(Seq<char>),
    UnexpectedArgument(Seq<char>),
    ConflictingFlags(Seq<char>, Seq<char>),
    InvalidNumber(Seq<char>),
}

/// View of an optional string as an optional character sequence.
pub open spec fn opt_view(o: Option<String>) -> Option<Seq<char>> {
    match o {
        Option::Some(s) => Option::Some(s@),
        Option::None => Option::None,
    }
}

impl View for ChatsQuery {
    type V = ChatsQueryV;

    open spec fn view(&self) -> ChatsQueryV {
        match self {
            ChatsQuery::List { details, limit, order } => ChatsQueryV::List {
                details: *details,
                limit: *limit as nat,
                order: *order,
            },
            ChatsQuery::Print { target, count, timestamps } => ChatsQueryV::Print {
                target: target@,
                count: *count as nat,
                timestamps: *timestamps,
            },
            ChatsQuery::Info { target } => ChatsQueryV::Info { target: target@ },
            ChatsQuery::Archive { target } => ChatsQueryV::Archive { target: target@ },
            ChatsQuery::Unarchive { target } => ChatsQueryV::Unarchive { target: target@ },
        }
    }
}

impl View for SendRequest {
    type V = SendRequestV;

    open spec fn view(&self) -> SendRequestV {
        SendRequestV {
            to: self.to@,
            message: opt_view(self.message),
            attach: opt_view(self.attach),
            at: opt_view(self.at),
        }
    }
}

impl View for DownloadRequest {
    type V = DownloadRequestV;

    open spec fn view(&self) -> DownloadRequestV {
        DownloadRequestV { attachment_id: self.attachment_id@, out: self.out@ }
    }
}

impl View for MiscAction {
    type V = MiscActionV;

    open spec fn view(&self) -> MiscActionV {
        match self {
            MiscAction::Search { query, limit } => MiscActionV::Search {
                query: query@,
                limit: *limit as nat,
            },
            MiscAction::Export { target, format } => MiscActionV::Export {
                target: target@,
                format: format@,
            },
            MiscAction::Contacts { details } => MiscActionV::Contacts { details: *details },
        }
    }
}

impl View for Command {
    type V = CommandV;

    open spec fn view(&self) -> CommandV {
        match self {
            Command::Chats(q) => CommandV::Chats(q@),
            Command::Send(s) => CommandV::Send(s@),
            Command::Download(d) => CommandV::Download(d@),
            Command::Session(a) => CommandV::Session(*a),
            Command::Misc(m) => CommandV::Misc(m@),
        }
    }
}

impl View for Invocation {
    type V = InvocationV;

    open spec fn view(&self) -> InvocationV {
        InvocationV {
            verbose: self.verbose,
            config: opt_view(self.config),
            command: self.command@,
        }
    }
}

impl View for GrammarError {
    type V = GrammarErrorV;

    open spec fn view(&self) -> GrammarErrorV {
        match self {
            GrammarError::MissingCommand => GrammarErrorV::MissingCommand,
            GrammarError::UnknownCommand(t) => GrammarErrorV::UnknownCommand(t@),
            GrammarError::UnknownFlag(t) => GrammarErrorV::UnknownFlag(t@),
            GrammarError::MissingValue(t) => GrammarErrorV::MissingValue(t@),
            GrammarError::MissingArgument(t) => GrammarErrorV::MissingArgument(t@),
            GrammarError::UnexpectedArgument(t) => GrammarErrorV::UnexpectedArgument(t@),
            GrammarError::ConflictingFlags(a, b) => GrammarErrorV::ConflictingFlags(a@, b@),
            GrammarError::InvalidNumber(t) => GrammarErrorV::InvalidNumber(t@),
        }
    }
}

} // verus!
