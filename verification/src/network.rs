//! Plain-value models of the network-facing vocabulary the subsystem shares
//! with its collaborators: peer identity, reputation changes, the bridge
//! instruction this crate produces, and the inbound collation-fetch channel
//! threaded through to the collator-side engine.

use vstd::prelude::*;

verus! {

/// An opaque, comparable, hashable token identifying a remote network
/// participant.
#[derive(Clone, Copy, Debug, Hash, PartialEq, Eq, Structural)]
pub struct PeerId(pub u64);

/// A signed adjustment to a peer's standing: a magnitude together with a
/// symbolic reason.  Produced by either role engine, consumed by the
/// network-bridge collaborator, never stored here.
#[derive(Clone, Copy, Debug)]
pub struct UnifiedReputationChange {
    /// The signed magnitude of the adjustment; negative values punish.
    pub delta: i64,
    /// A short symbolic description of the behaviour being rewarded or
    /// punished.
    pub reason: &'static str,
}

/// The portion of the network bridge's inbound vocabulary that this
/// subsystem produces: an instruction to adjust a peer's reputation.
#[derive(Clone, Copy, Debug)]
pub enum NetworkBridgeMessage {
    /// Report a peer for its behaviour, adjusting its reputation by the
    /// given change.
    ReportPeer(PeerId, UnifiedReputationChange),
}

/// An inbound request for a collation: carries which candidate the remote
/// validator wants fetched.
#[derive(Clone, Copy, Debug, PartialEq, Eq, Structural)]
pub struct CollationFetchingRequest {
    /// The relay-chain block the requested collation builds on.
    pub relay_parent: u64,
    /// The shard whose collation is requested.
    pub para_id: u32,
}

/// The receive-only end of the inbound collation-fetch request channel.
///
/// Exclusively owned: the value is move-only (deliberately not `Clone`), so
/// once it is handed to the collator-side engine no other component can read
/// from the same channel.
#[derive(Debug)]
pub struct IncomingRequestReceiver {
    /// Requests delivered but not yet taken by the engine.
    pub pending: Vec<CollationFetchingRequest>,
    /// Whether every sending end has been dropped.
    pub closed: bool,
}

} // verus!
