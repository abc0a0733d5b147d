//! Federation sync subsystem for a deliberation platform: peer-to-peer
//! replication of thread-creation and credential-link-creation events over a
//! publish/subscribe overlay, with pull-based catch-up for peers that missed
//! earlier announcements.
//!
//! The crate is organised leaves-first:
//! - [`protocol`] defines the three wire envelopes and a self-describing byte
//!   codec, with a proved round-trip law;
//! - [`network`] models the transport adapter that owns the connection to the
//!   overlay: a command queue, an event queue, and the set of connected peers;
//! - [`store`] holds the local durable state the engine replicates against;
//! - [`sync`] is the engine: it decodes inbound envelopes, applies them
//!   idempotently, and answers sync requests by replaying known state;
//! - [`discovery`] periodically dials a static bootstrap set;
//! - [`facade`] composes the pieces with a fixed start/stop order.

use vstd::prelude::*;

pub mod auth;
pub mod discovery;
pub mod facade;
pub mod health;
pub mod models;
pub mod network;
pub mod protocol;
pub mod runtime;
pub mod store;
mod strcmp;
pub mod sync;

verus! {

/// Error types for federation-level operations.
#[derive(Clone, PartialEq, Eq, Debug)]
pub enum FederationError {
    /// The transport adapter refused or failed an operation.
    Network(String),
    /// An envelope could not be serialized or deserialized.
    Serialization(String),
    /// Thread synchronization failed.
    ThreadSync(String),
    /// A storage collaborator failed.
    Storage(crate::store::StorageError),
    /// Unexpected failure.
    Other(String),
}

} // verus!
