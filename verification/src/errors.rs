//! Domain errors of the connection manager.

use vstd::prelude::*;

verus! {

/// Every way an operation can fail, with the originating cause kept as
/// text where a lower layer reported one. Nothing here is fatal: every
/// failure leaves the manager in a state from which the caller can retry.
#[derive(Debug)]
pub enum FtpError {
    /// An operation that needs an active session was invoked without one.
    NotConnected,
    /// The network connection to the server could not be established.
    ConnectFailed(String),
    /// The server rejected the credentials.
    AuthFailed(String),
    /// The server rejected a change into the configured initial directory.
    DirectoryChangeFailed(String),
    /// The directory-listing request failed.
    ListFailed(String),
    /// The remote resource could not be fetched.
    FetchFailed(String),
    /// The remote store of uploaded content failed.
    StoreFailed(String),
    /// The server rejected removal of the named resource.
    RemoveFailed(String),
    /// A local filesystem open, create, read or write failed.
    LocalIoFailed(String),
    /// The graceful session-termination exchange failed.
    DisconnectFailed(String),
}

} // verus!
