//! Connection configuration: immutable after creation.

use vstd::prelude::*;

verus! {

/// Everything needed to open and authenticate one session: the server
/// address, the credentials, and an optional directory to change into
/// right after authentication. Created once when the manager is built
/// and never mutated afterwards.
pub struct FtpConfig {
    pub host: String,
    pub port: u16,
    pub username: String,
    pub password: String,
    pub initial_directory: Option<String>,
}

impl FtpConfig {
    pub fn new(
        host: String,
        port: u16,
        username: String,
        password: String,
        initial_directory: Option<String>,
    ) -> (c: FtpConfig)
        ensures
            c.host == host,
            c.port == port,
            c.username == username,
            c.password == password,
            c.initial_directory == initial_directory,
    {
        FtpConfig { host, port, username, password, initial_directory }
    }

    /// An exact copy, so a connect attempt can carry the configuration it
    /// was started from.
    pub fn duplicate(&self) -> (c: FtpConfig)
        ensures
            c == *self,
    {
        let initial_directory: Option<String> = match &self.initial_directory {
            Some(dir) => Some(dir.clone()),
            None => None,
        };
        FtpConfig {
            host: self.host.clone(),
            port: self.port,
            username: self.username.clone(),
            password: self.password.clone(),
            initial_directory,
        }
    }
}

} // verus!
