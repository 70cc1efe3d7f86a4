//! The connection manager: one configuration, one session slot, four
//! operations over the one session.
//!
//! The manager never touches the network or the filesystem. Every
//! operation is split at the I/O boundary: a method here decides whether
//! and what the host may call, the host makes the call, and another
//! method here says what the outcome means — which domain error a failure
//! becomes, and that content passes through unmodified. The session slot
//! is exclusive: the methods that change it take the manager by `&mut`,
//! so no two operations can touch it at once, and the host serializes
//! whole operations around the manager with its own lock.

use crate::config::FtpConfig;
use crate::connect::ConnectFlow;
use crate::errors::FtpError;
use crate::model::connect_transition;
use crate::model::disconnect_transition;
use crate::outcomes::BytesOutcome;
use crate::outcomes::ListOutcome;
use crate::outcomes::StepOutcome;
use vstd::prelude::*;

verus! {

/// Owns the configuration and the session slot. At most one session
/// exists per manager: the slot is either empty (disconnected) or holds
/// the one live session (connected), and only `connect` fills it, only
/// `disconnect` clears it.
pub struct FtpConnection {
    config: FtpConfig,
    connected: bool,
}

impl FtpConnection {
    /// Whether the session slot holds a live session.
    pub closed spec fn is_connected(&self) -> bool {
        self.connected
    }

    /// The configuration the manager was built with.
    pub closed spec fn config(&self) -> FtpConfig {
        self.config
    }

    /// A fresh manager: it keeps the given configuration for its lifetime
    /// and starts disconnected.
    pub fn new(config: FtpConfig) -> (manager: FtpConnection)
        ensures
            !manager.is_connected(),
            manager.config() == config,
    {
        FtpConnection { config, connected: false }
    }

    /// Begins a `connect` call. When a session already exists the call is
    /// a no-op that succeeds — no attempt is returned, so no network setup
    /// is performed. Otherwise the returned attempt drives the setup
    /// sequence from its first step, under this manager's configuration.
    pub fn connect_begin(&self) -> (flow: Option<ConnectFlow>)
        ensures
            (flow is Some) == !self.is_connected(),
            flow matches Some(f) ==> f.wf() && f.phase() is Dialing && f.config() == self.config(),
    {
        if self.connected {
            None
        } else {
            Some(ConnectFlow::start(&self.config))
        }
    }

    /// Ends a `connect` call with a finished attempt: exactly when the
    /// attempt established a session, the slot is filled and the call
    /// succeeds; on a failed attempt the slot stays empty — nothing
    /// half set up is kept — and the attempt's own error is reported.
    pub fn connect_commit(&mut self, flow: ConnectFlow) -> (r: Result<(), FtpError>)
        requires
            !old(self).is_connected(),
            flow.config() == old(self).config(),
            flow.wf(),
            flow.done(),
        ensures
            final(self).config() == old(self).config(),
            final(self).is_connected() == connect_transition(
                old(self).is_connected(),
                flow.established(),
            ).0,
            (r is Ok) == connect_transition(old(self).is_connected(), flow.established()).1,
            flow.error() matches Some(e) ==> (r matches Err(out) && out == e),
    {
        let r = flow.into_result();
        if r.is_ok() {
            self.connected = true;
        }
        r
    }

    /// Begins a `disconnect` call: the slot is cleared whatever happens
    /// next, and the result says whether a session existed — that is,
    /// whether the host still has to perform the termination exchange for
    /// the handle it holds.
    pub fn disconnect_begin(&mut self) -> (quit_needed: bool)
        ensures
            quit_needed == old(self).is_connected(),
            !final(self).is_connected(),
            final(self).config() == old(self).config(),
    {
        let was_connected = self.connected;
        self.connected = false;
        was_connected
    }

    /// Ends a `disconnect` call: a no-op disconnect succeeds, and so does
    /// one whose termination exchange succeeded; a failed exchange is
    /// reported with its cause, though the session is gone either way.
    pub fn disconnect_finish(&self, was_connected: bool, quit: StepOutcome) -> (r: Result<
        (),
        FtpError,
    >)
        ensures
            (r is Ok) == disconnect_transition(was_connected, quit is Success).1,
            quit matches StepOutcome::Failure(cause) ==> (was_connected ==> (r matches Err(
                FtpError::DisconnectFailed(c),
            ) && c == cause)),
    {
        if was_connected {
            match quit {
                StepOutcome::Success => Ok(()),
                StepOutcome::Failure(cause) => Err(FtpError::DisconnectFailed(cause)),
            }
        } else {
            Ok(())
        }
    }

    /// Guard shared by listing, download, upload and removal: they need an
    /// active session, and without one they fail right here — before any
    /// network call — with the not-connected error.
    pub fn begin_operation(&self) -> (r: Result<(), FtpError>)
        ensures
            (r is Ok) == self.is_connected(),
            !self.is_connected() ==> r matches Err(FtpError::NotConnected),
    {
        if self.connected {
            Ok(())
        } else {
            Err(FtpError::NotConnected)
        }
    }

    /// Ends a listing: the entries are returned exactly as the server sent
    /// them — same strings, same order, nothing parsed, filtered or
    /// sorted; a failed request becomes the listing error with its cause.
    pub fn list_current_directory(&self, reply: ListOutcome) -> (r: Result<Vec<String>, FtpError>)
        requires
            self.is_connected(),
        ensures
            reply matches ListOutcome::Entries(entries) ==> (r matches Ok(out) && out == entries),
            reply matches ListOutcome::Failure(cause) ==> (r matches Err(
                FtpError::ListFailed(c),
            ) && c == cause),
    {
        match reply {
            ListOutcome::Entries(entries) => Ok(entries),
            ListOutcome::Failure(cause) => Err(FtpError::ListFailed(cause)),
        }
    }

    /// Continues a download after the remote fetch: the bytes to write to
    /// the local destination are exactly the bytes the server returned; a
    /// failed fetch becomes the fetch error with its cause.
    pub fn download_file(&self, fetched: BytesOutcome) -> (r: Result<Vec<u8>, FtpError>)
        requires
            self.is_connected(),
        ensures
            fetched matches BytesOutcome::Content(content) ==> (r matches Ok(out) && out
                == content),
            fetched matches BytesOutcome::Failure(cause) ==> (r matches Err(
                FtpError::FetchFailed(c),
            ) && c == cause),
    {
        match fetched {
            BytesOutcome::Content(content) => Ok(content),
            BytesOutcome::Failure(cause) => Err(FtpError::FetchFailed(cause)),
        }
    }

    /// Ends a download with the outcome of the local write: a failure to
    /// create or write the destination is a local I/O error with its
    /// cause.
    pub fn download_finish(&self, written: StepOutcome) -> (r: Result<(), FtpError>)
        requires
            self.is_connected(),
        ensures
            (r is Ok) == (written is Success),
            written matches StepOutcome::Failure(cause) ==> (r matches Err(
                FtpError::LocalIoFailed(c),
            ) && c == cause),
    {
        match written {
            StepOutcome::Success => Ok(()),
            StepOutcome::Failure(cause) => Err(FtpError::LocalIoFailed(cause)),
        }
    }

    /// Continues an upload after the local read: the bytes handed to the
    /// remote store are exactly the bytes read from the source file; a
    /// failed open or read is a local I/O error with its cause.
    pub fn upload_file(&self, source: BytesOutcome) -> (r: Result<Vec<u8>, FtpError>)
        requires
            self.is_connected(),
        ensures
            source matches BytesOutcome::Content(content) ==> (r matches Ok(out) && out
                == content),
            source matches BytesOutcome::Failure(cause) ==> (r matches Err(
                FtpError::LocalIoFailed(c),
            ) && c == cause),
    {
        match source {
            BytesOutcome::Content(content) => Ok(content),
            BytesOutcome::Failure(cause) => Err(FtpError::LocalIoFailed(cause)),
        }
    }

    /// Ends an upload with the outcome of the remote store: a rejected
    /// store becomes the store error with its cause.
    pub fn upload_finish(&self, stored: StepOutcome) -> (r: Result<(), FtpError>)
        requires
            self.is_connected(),
        ensures
            (r is Ok) == (stored is Success),
            stored matches StepOutcome::Failure(cause) ==> (r matches Err(
                FtpError::StoreFailed(c),
            ) && c == cause),
    {
        match stored {
            StepOutcome::Success => Ok(()),
            StepOutcome::Failure(cause) => Err(FtpError::StoreFailed(cause)),
        }
    }

    /// Ends a removal with the server's answer: a rejected removal —
    /// including of a resource that does not exist — becomes the removal
    /// error with its cause.
    pub fn delete_file(&self, removal: StepOutcome) -> (r: Result<(), FtpError>)
        requires
            self.is_connected(),
        ensures
            (r is Ok) == (removal is Success),
            removal matches StepOutcome::Failure(cause) ==> (r matches Err(
                FtpError::RemoveFailed(c),
            ) && c == cause),
    {
        match removal {
            StepOutcome::Success => Ok(()),
            StepOutcome::Failure(cause) => Err(FtpError::RemoveFailed(cause)),
        }
    }
}

} // verus!
