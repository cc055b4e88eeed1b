//! Handle type for the external messaging backend.
//!
//! The backend itself (network, session, attachment transfer) lives outside
//! this core; handlers receive a `WwebJsClient` capability and the unverified
//! shell implements the actual operations on it.

use vstd::prelude::*;

verus! {

/// Capability handle for the wweb.js backend bridge. The core only creates
/// and passes it along; every real operation is performed by the shell.
#[derive(Clone, Copy, Debug, PartialEq, Eq, Structural)]
pub struct WwebJsClient;

impl WwebJsClient {
    /// A fresh handle to the backend bridge.
    pub fn new() -> (c: Self)
        ensures
            c == (WwebJsClient {}),
    {
        WwebJsClient
    }
}

} // verus!
