//! What the host reports back from a network or filesystem call.
//!
//! The manager never performs I/O itself: it tells the host what call to
//! make, the host makes it, and the result comes back as one of these
//! values. Each failure carries the lower layer's report as text, so the
//! originating cause is preserved in the domain error built from it.

use vstd::prelude::*;

verus! {

/// Outcome of a call that either works or fails: dialing, authenticating,
/// changing directory, storing, removing, writing a local file, or the
/// session-termination exchange.
pub enum StepOutcome {
    Success,
    Failure(String),
}

/// Outcome of a call that produces bytes: fetching a remote resource, or
/// reading a local source file.
pub enum BytesOutcome {
    Content(Vec<u8>),
    Failure(String),
}

/// Outcome of a directory-listing request: the entry descriptions exactly
/// as the server sent them, in the server's order.
pub enum ListOutcome {
    Entries(Vec<String>),
    Failure(String),
}

} // verus!
