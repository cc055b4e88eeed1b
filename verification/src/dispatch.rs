//! Dispatch: from a validated command to exactly one handler.
//!
//! After a successful parse, dispatch is a pure mapping from the command
//! variant to the backend operation that handles it; the unverified shell
//! performs that operation on the [`crate::client::WwebJsClient`] handle.
//! The one pre-dispatch step with input is `send` without a message: the
//! shell reads standard input to end-of-stream and [`resolve_send_body`]
//! makes the text the message body — an empty stream yields an empty body,
//! by design not an error.

use vstd::prelude::*;
use crate::ast::{ChatsQuery, ChatsQueryV, Command, CommandV, MiscAction, MiscActionV, SendRequest, SessionAction};

verus! {

/// The backend operation that handles one leaf command.
#[derive(Clone, Copy, Debug, PartialEq, Eq, Structural)]
pub enum Handler {
    ListChats,
    FetchMessages,
    ChatInfo,
    ArchiveChat,
    UnarchiveChat,
    SendMessage,
    DownloadAttachment,
    Login,
    Logout,
    Status,
    Search,
    Export,
    ListContacts,
}

/// The handler each command variant routes to. Total and one-to-one on
/// variants: no partial dispatch.
pub open spec fn handler_of(c: CommandV) -> Handler {
    match c {
        CommandV::Chats(q) => match q {
            ChatsQueryV::List { .. } => Handler::ListChats,
            ChatsQueryV::Print { .. } => Handler::FetchMessages,
            ChatsQueryV::Info { .. } => Handler::ChatInfo,
            ChatsQueryV::Archive { .. } => Handler::ArchiveChat,
            ChatsQueryV::Unarchive { .. } => Handler::UnarchiveChat,
        },
        CommandV::Send(_) => Handler::SendMessage,
        CommandV::Download(_) => Handler::DownloadAttachment,
        CommandV::Session(a) => match a {
            SessionAction::Login => Handler::Login,
            SessionAction::Logout => Handler::Logout,
            SessionAction::Status => Handler::Status,
        },
        CommandV::Misc(m) => match m {
            MiscActionV::Search { .. } => Handler::Search,
            MiscActionV::Export { .. } => Handler::Export,
            MiscActionV::Contacts { .. } => Handler::ListContacts,
        },
    }
}

/// Route a validated command to its handler, as [`handler_of`] describes.
pub fn handler_for(c: &Command) -> (h: Handler)
    ensures
        h == handler_of(c@),
{
    match c {
        Command::Chats(q) => match q {
            ChatsQuery::List { .. } => Handler::ListChats,
            ChatsQuery::Print { .. } => Handler::FetchMessages,
            ChatsQuery::Info { .. } => Handler::ChatInfo,
            ChatsQuery::Archive { .. } => Handler::ArchiveChat,
            ChatsQuery::Unarchive { .. } => Handler::UnarchiveChat,
        },
        Command::Send(_) => Handler::SendMessage,
        Command::Download(_) => Handler::DownloadAttachment,
        Command::Session(a) => match a {
            SessionAction::Login => Handler::Login,
            SessionAction::Logout => Handler::Logout,
            SessionAction::Status => Handler::Status,
        },
        Command::Misc(m) => match m {
            MiscAction::Search { .. } => Handler::Search,
            MiscAction::Export { .. } => Handler::Export,
            MiscAction::Contacts { .. } => Handler::ListContacts,
        },
    }
}

/// Does dispatching this command first need standard input read to
/// end-of-stream? Exactly for `send` without a message argument.
pub fn needs_stdin(c: &Command) -> (r: bool)
    ensures
        r == (c@ matches CommandV::Send(s) && s.message is None),
{
    match c {
        Command::Send(s) => s.message.is_none(),
        _ => false,
    }
}

/// The message body a `send` dispatches: the message argument when one was
/// given, otherwise the whole standard-input text — empty stream, empty
/// body.
pub fn resolve_send_body(req: &SendRequest, stdin_text: String) -> (body: String)
    ensures
        req@.message matches Some(m) ==> body@ == m,
        req@.message is None ==> body@ == stdin_text@,
{
    match &req.message {
        Some(m) => m.clone(),
        None => stdin_text,
    }
}

} // verus!
