//! The manager's state machine and the remote store, as mathematical
//! models, with the laws that hold of them.
//!
//! The manager has exactly two states per session slot: disconnected and
//! connected. The transition functions here say how `connect` and
//! `disconnect` move between them and what each call reports; the
//! executable operations in [`crate::manager`] state their effect in
//! terms of these functions.

use vstd::prelude::*;

verus! {

/// State and report of one `connect` call: `(connected after, success)`.
/// From a connected manager the call is a no-op that succeeds without any
/// session setup; from a disconnected one it connects exactly when the
/// setup establishes a session.
pub open spec fn connect_transition(connected: bool, setup_establishes: bool) -> (bool, bool) {
    if connected {
        (true, true)
    } else {
        (setup_establishes, setup_establishes)
    }
}

/// State and report of one `disconnect` call: `(connected after, success)`.
/// The manager is left disconnected whatever happened; the call reports
/// failure only when a session existed and the termination exchange failed.
pub open spec fn disconnect_transition(connected: bool, quit_ok: bool) -> (bool, bool) {
    (false, !connected || quit_ok)
}

/// The remote store as the four operations see it: a map from remote
/// identifier to content. Uploading overwrites whatever the identifier
/// named before.
pub open spec fn store_after_upload(
    store: Map<Seq<char>, Seq<u8>>,
    remote: Seq<char>,
    content: Seq<u8>,
) -> Map<Seq<char>, Seq<u8>> {
    store.insert(remote, content)
}

/// What fetching a remote identifier yields: the stored content, or
/// nothing when the store has no resource under that name.
pub open spec fn store_fetch(store: Map<Seq<char>, Seq<u8>>, remote: Seq<char>) -> Option<
    Seq<u8>,
> {
    if store.dom().contains(remote) {
        Some(store[remote])
    } else {
        None
    }
}

/// Idempotence of `connect`: once a connect call has succeeded, a second
/// call without an intervening disconnect succeeds and leaves the state
/// exactly as it was — and this holds whatever a second session setup
/// would have produced, because from a connected manager no setup is
/// performed at all.
pub proof fn lemma_connect_idempotent(connected: bool, first_setup: bool, second_setup: bool)
    requires
        connect_transition(connected, first_setup).1,
    ensures
        ({
            let after_first = connect_transition(connected, first_setup).0;
            let second = connect_transition(after_first, second_setup);
            &&& after_first
            &&& second.1
            &&& second.0 == after_first
        }),
{
}

/// Cleanup on failure: when session setup fails, a disconnected manager
/// stays disconnected and the call reports the failure; a later attempt
/// whose setup succeeds still connects.
pub proof fn lemma_connect_failure_recovery(connected: bool)
    requires
        !connected,
    ensures
        ({
            let failed = connect_transition(connected, false);
            &&& !failed.0
            &&& !failed.1
            &&& connect_transition(failed.0, true) == (true, true)
        }),
{
}

/// Disconnect always clears state: from either state, and whether or not
/// the termination exchange succeeds, the manager ends disconnected.
pub proof fn lemma_disconnect_clears(connected: bool, quit_ok: bool)
    ensures
        !disconnect_transition(connected, quit_ok).0,
{
}

/// Round trip: fetching a remote identifier right after uploading content
/// under it yields exactly that content. The manager's transfer contracts
/// say that the bytes handed to the store are the bytes read from the
/// local source and that the bytes written locally are the bytes fetched,
/// so a round trip through a store reproduces the uploaded content byte
/// for byte.
pub proof fn lemma_upload_download_round_trip(
    store: Map<Seq<char>, Seq<u8>>,
    remote: Seq<char>,
    content: Seq<u8>,
)
    ensures
        store_fetch(store_after_upload(store, remote, content), remote) == Some(content),
{
}

} // verus!
