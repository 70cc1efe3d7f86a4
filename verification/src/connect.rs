//! One connect attempt, as a small state machine.
//!
//! Session setup is a fixed sequence of network calls: open a connection
//! to `host:port`, authenticate with the credentials, and — only when the
//! configuration names an initial directory — change into it. The host
//! performs each call and reports its outcome; the flow here decides what
//! comes next and which domain error a failure at each point becomes. A
//! failure anywhere ends the attempt: nothing is left half set up.

use crate::config::FtpConfig;
use crate::errors::FtpError;
use crate::outcomes::StepOutcome;
use vstd::pervasive::unreached;
use vstd::prelude::*;

verus! {

/// The network call the host must perform next.
pub enum ConnectAction {
    /// Open a network connection to `host:port`.
    Dial { host: String, port: u16 },
    /// Authenticate on the open connection.
    Login { username: String, password: String },
    /// Change into the configured initial directory.
    ChangeDirectory { path: String },
}

/// Where a connect attempt stands.
pub enum ConnectPhase {
    /// Waiting for the outcome of opening the connection.
    Dialing,
    /// Waiting for the outcome of authentication.
    Authenticating,
    /// Waiting for the outcome of the initial directory change.
    ChangingDirectory,
    /// Every step succeeded: a session exists.
    Established,
    /// A step failed: no session exists.
    Failed,
}

/// One connect attempt. Created by
/// [`crate::manager::FtpConnection::connect_begin`], stepped forward with
/// each outcome, and handed back to
/// [`crate::manager::FtpConnection::connect_commit`] once done.
pub struct ConnectFlow {
    config: FtpConfig,
    phase: ConnectPhase,
    error: Option<FtpError>,
}

impl ConnectFlow {
    /// The configuration the attempt was started from.
    pub closed spec fn config(&self) -> FtpConfig {
        self.config
    }

    /// The phase the attempt is in.
    pub closed spec fn phase(&self) -> ConnectPhase {
        self.phase
    }

    /// The error a failed step was mapped to, if one failed.
    pub closed spec fn error(&self) -> Option<FtpError> {
        self.error
    }

    /// An attempt carries an error exactly when it failed, and asks for a
    /// directory change only when the configuration names a directory.
    pub open spec fn wf(&self) -> bool {
        &&& (self.phase() is Failed <==> self.error() is Some)
        &&& (self.phase() is ChangingDirectory ==> self.config().initial_directory is Some)
    }

    /// Whether the attempt is over, well or badly.
    pub open spec fn done(&self) -> bool {
        self.phase() is Established || self.phase() is Failed
    }

    /// Whether the attempt ended with a session established.
    pub open spec fn established(&self) -> bool {
        self.phase() is Established
    }

    /// Starts an attempt: the first call to make is the dial.
    pub fn start(config: &FtpConfig) -> (flow: ConnectFlow)
        ensures
            flow.wf(),
            flow.phase() is Dialing,
            flow.config() == *config,
    {
        ConnectFlow { config: config.duplicate(), phase: ConnectPhase::Dialing, error: None }
    }

    /// Whether the attempt is over.
    pub fn is_done(&self) -> (done: bool)
        ensures
            done == self.done(),
    {
        match self.phase {
            ConnectPhase::Established => true,
            ConnectPhase::Failed => true,
            _ => false,
        }
    }

    /// The call the host must perform next, with the configuration values
    /// it needs: the dial goes to `host:port`, the login carries the
    /// credentials, the directory change names the configured directory.
    pub fn action(&self) -> (a: ConnectAction)
        requires
            self.wf(),
            !self.done(),
        ensures
            self.phase() is Dialing ==> (a matches ConnectAction::Dial { host, port }
                && host == self.config().host && port == self.config().port),
            self.phase() is Authenticating ==> (a matches ConnectAction::Login {
                username,
                password,
            } && username == self.config().username && password == self.config().password),
            self.phase() is ChangingDirectory ==> (a matches ConnectAction::ChangeDirectory {
                path,
            } && self.config().initial_directory matches Some(dir) && path == dir),
    {
        match self.phase {
            ConnectPhase::Dialing => ConnectAction::Dial {
                host: self.config.host.clone(),
                port: self.config.port,
            },
            ConnectPhase::Authenticating => ConnectAction::Login {
                username: self.config.username.clone(),
                password: self.config.password.clone(),
            },
            ConnectPhase::ChangingDirectory => match &self.config.initial_directory {
                Some(dir) => ConnectAction::ChangeDirectory { path: dir.clone() },
                None => unreached(),
            },
            _ => unreached(),
        }
    }

    /// Takes the outcome of the call that [`Self::action`] asked for and
    /// moves the attempt forward: success advances to the next step (the
    /// directory change is skipped when no directory is configured);
    /// failure ends the attempt with the error that belongs to the step —
    /// a failed dial is a connection failure, a failed login an
    /// authentication failure, a failed change a directory-change failure
    /// — with the cause preserved.
    pub fn step(&mut self, outcome: StepOutcome)
        requires
            old(self).wf(),
            !old(self).done(),
        ensures
            final(self).wf(),
            final(self).config() == old(self).config(),
            outcome is Success ==> {
                &&& old(self).phase() is Dialing ==> final(self).phase() is Authenticating
                &&& (old(self).phase() is Authenticating && old(
                    self,
                ).config().initial_directory is Some) ==> final(self).phase() is ChangingDirectory
                &&& (old(self).phase() is Authenticating && old(
                    self,
                ).config().initial_directory is None) ==> final(self).phase() is Established
                &&& old(self).phase() is ChangingDirectory ==> final(self).phase() is Established
            },
            outcome matches StepOutcome::Failure(cause) ==> {
                &&& final(self).phase() is Failed
                &&& old(self).phase() is Dialing ==> (final(self).error() matches Some(
                    FtpError::ConnectFailed(c),
                ) && c == cause)
                &&& old(self).phase() is Authenticating ==> (final(self).error() matches Some(
                    FtpError::AuthFailed(c),
                ) && c == cause)
                &&& old(self).phase() is ChangingDirectory ==> (final(self).error() matches Some(
                    FtpError::DirectoryChangeFailed(c),
                ) && c == cause)
            },
    {
        match outcome {
            StepOutcome::Success => {
                match self.phase {
                    ConnectPhase::Dialing => {
                        self.phase = ConnectPhase::Authenticating;
                    },
                    ConnectPhase::Authenticating => {
                        if self.config.initial_directory.is_some() {
                            self.phase = ConnectPhase::ChangingDirectory;
                        } else {
                            self.phase = ConnectPhase::Established;
                        }
                    },
                    ConnectPhase::ChangingDirectory => {
                        self.phase = ConnectPhase::Established;
                    },
                    _ => unreached(),
                }
            },
            StepOutcome::Failure(cause) => {
                let error = match self.phase {
                    ConnectPhase::Dialing => FtpError::ConnectFailed(cause),
                    ConnectPhase::Authenticating => FtpError::AuthFailed(cause),
                    ConnectPhase::ChangingDirectory => FtpError::DirectoryChangeFailed(cause),
                    _ => unreached(),
                };
                self.phase = ConnectPhase::Failed;
                self.error = Some(error);
            },
        }
    }

    /// What the attempt amounts to: success when a session was
    /// established, otherwise exactly the error the failed step produced.
    pub fn into_result(self) -> (r: Result<(), FtpError>)
        requires
            self.wf(),
            self.done(),
        ensures
            (r is Ok) == self.established(),
            self.error() matches Some(e) ==> (r matches Err(out) && out == e),
    {
        match self.error {
            None => Ok(()),
            Some(e) => Err(e),
        }
    }
}

} // verus!
