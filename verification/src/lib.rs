//! Core of a single-connection file-transfer client.
//!
//! One authenticated session to a remote file-transfer server is managed
//! by a [`manager::FtpConnection`]: it owns the configuration and the
//! session slot, and serializes the four operations (list, fetch, store,
//! remove) over that one session. The network and filesystem calls
//! themselves are the host's work; the manager decides what may be
//! called before each one and what every outcome means, and those
//! decisions are what is verified here. The state machine behind them,
//! and the laws it obeys, are in [`model`].

pub mod config;
pub mod connect;
pub mod errors;
pub mod host;
pub mod manager;
pub mod model;
pub mod outcomes;
