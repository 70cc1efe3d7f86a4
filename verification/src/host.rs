//! The host runtime's side of the core: command registration and the
//! lifecycle hook.
//!
//! The surrounding runtime constructs the extension at activation, lets
//! it register its commands, and tears it down at deactivation. Nothing
//! here touches the network: the command callbacks and the termination
//! exchange are the host's work around the manager.

use crate::config::FtpConfig;
use crate::errors::FtpError;
use crate::manager::FtpConnection;
use vstd::prelude::*;

verus! {

/// The registration surface the host runtime offers: commands are handed
/// over by name and description, and the host accepts every offer.
pub struct ExtensionContext;

impl ExtensionContext {
    /// Offers a command to the host, which accepts every registration.
    pub fn register_command<F>(&self, _name: &str, _description: &str, _callback: F) -> (r: Result<
        (),
        FtpError,
    >)
        ensures
            r is Ok,
    {
        Ok(())
    }
}

/// The lifecycle hook the host runtime drives: activation registers the
/// core's commands, deactivation tears the session down.
pub trait Extension {
    fn activate(&mut self, cx: &ExtensionContext) -> Result<(), FtpError>;

    fn deactivate(&mut self, cx: &ExtensionContext) -> Result<(), FtpError>;
}

/// The one concrete extension: a connection manager offered to the host
/// behind [`Extension`].
pub struct FtpExtension {
    connection: FtpConnection,
}

impl FtpExtension {
    /// The manager the extension owns.
    pub closed spec fn manager(&self) -> FtpConnection {
        self.connection
    }

    /// Builds the extension around a fresh, disconnected manager with the
    /// default configuration, in place of one read from the host's
    /// settings.
    fn new(_cx: &ExtensionContext) -> (r: Result<FtpExtension, FtpError>)
        ensures
            r matches Ok(ext) && !ext.manager().is_connected(),
            r matches Ok(ext) ==> {
                &&& ext.manager().config().host@ == "ftp.example.com"@
                &&& ext.manager().config().port == 21
                &&& ext.manager().config().username@ == "anonymous"@
                &&& ext.manager().config().password@ == "anonymous@"@
                &&& ext.manager().config().initial_directory is None
            },
    {
        let config = FtpConfig::new(
            "ftp.example.com".to_owned(),
            21,
            "anonymous".to_owned(),
            "anonymous@".to_owned(),
            None,
        );
        Ok(FtpExtension { connection: FtpConnection::new(config) })
    }
}

impl Extension for FtpExtension {
    /// Registers the core's commands with the host; the session is left
    /// untouched.
    fn activate(&mut self, cx: &ExtensionContext) -> (r: Result<(), FtpError>)
        ensures
            final(self).manager() == old(self).manager(),
            r is Ok,
    {
        let connect_reg = cx.register_command(
            "ftp.connect",
            "Connect to FTP server",
            || true,
        );
        if connect_reg.is_err() {
            return connect_reg;
        }
        let disconnect_reg = cx.register_command(
            "ftp.disconnect",
            "Disconnect from FTP server",
            || true,
        );
        if disconnect_reg.is_err() {
            return disconnect_reg;
        }
        cx.register_command("ftp.list", "List current directory on FTP server", || true)
    }

    /// Clears the session slot at teardown. Termination is best-effort:
    /// the host performs the exchange for whatever handle it still holds.
    fn deactivate(&mut self, _cx: &ExtensionContext) -> (r: Result<(), FtpError>)
        ensures
            !final(self).manager().is_connected(),
            r is Ok,
    {
        let _quit_needed = self.connection.disconnect_begin();
        Ok(())
    }
}

/// Entry point for the host runtime: builds the one concrete extension,
/// with its manager disconnected until the host drives a connect.
pub fn init_extension(cx: &ExtensionContext) -> (r: Result<FtpExtension, FtpError>)
    ensures
        r matches Ok(ext) && !ext.manager().is_connected(),
{
    FtpExtension::new(cx)
}

} // verus!
