//! Command grammar and dispatch core for a WhatsApp command-line client.
//!
//! The library turns a raw argument list into exactly one validated
//! [`ast::Invocation`] (or a structured [`ast::GrammarError`]), applies the
//! documented default-resolution policy, and maps each command variant to its
//! handler. Networking, session storage and the terminal UI are external
//! collaborators reached through a thin unverified shell around this crate.

pub mod ast;
pub mod num;
pub mod scan;
pub mod assemble;
pub mod parser;
pub mod dispatch;
pub mod canonical;
pub mod laws;
pub mod client;
