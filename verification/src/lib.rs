//! The collator protocol lets collators and validators of a sharded ledger
//! talk to each other.
//!
//! This crate is the entry point and role dispatcher for that protocol: a
//! process engages exactly one of the two protocol sides, and the subsystem
//! here selects the matching role engine, hands it its payload, and supplies
//! the policy values (peer eviction timing, reputation reporting) that both
//! sides share.  The role engines themselves own the interaction loops; the
//! hosting actor runtime drives the futures around the decisions made here.

use vstd::prelude::*;

pub mod collator_side;
pub mod error;
pub mod keystore;
pub mod network;
pub mod primitives;
pub mod validator_side;

use crate::error::{FatalError, SubsystemError};
use crate::keystore::KeystoreHandle;
use crate::network::{
    IncomingRequestReceiver, NetworkBridgeMessage, PeerId, UnifiedReputationChange,
};
use crate::primitives::CollatorPair;

verus! {

/// The diagnostic target tag carried by every trace record this subsystem
/// emits.
pub const LOG_TARGET: &'static str = "parachain::collator-protocol";

/// A collator eviction policy - how fast to evict collators which are
/// inactive.
///
/// Both timeouts are in seconds.  A well-formed policy has both strictly
/// positive; an undeclared peer (one that never announced which shard it
/// serves) is expected to be dropped faster than one that declared and then
/// went quiet, but that is not required structurally.
#[derive(Clone, Copy, Debug, PartialEq, Eq, Structural)]
pub struct CollatorEvictionPolicy {
    /// How fast to evict collators who are inactive, in seconds.
    pub inactive_collator: u64,
    /// How fast to evict peers which don't declare their shard, in seconds.
    pub undeclared: u64,
}

impl CollatorEvictionPolicy {
    /// Both timeouts are strictly positive.
    pub open spec fn is_valid(self) -> bool {
        self.inactive_collator > 0 && self.undeclared > 0
    }
}

impl Default for CollatorEvictionPolicy {
    /// The documented default: inactive collators are evicted after 24
    /// seconds, undeclared peers after 1 second.
    fn default() -> (r: Self)
        ensures
            r.inactive_collator == 24,
            r.undeclared == 1,
            r.is_valid(),
    {
        CollatorEvictionPolicy { inactive_collator: 24, undeclared: 1 }
    }
}

/// What side of the collator protocol is being engaged.
///
/// A closed sum type: exactly one variant is populated, chosen once at
/// process configuration time, so a validator configuration cannot carry
/// collator-only capabilities (the signing keypair, the inbound fetch
/// channel) nor the other way round.
pub enum ProtocolSide {
    /// Validators operate on the relay chain.
    Validator {
        /// The handle to the store holding the validator keys.
        keystore: KeystoreHandle,
        /// An eviction policy for inactive peers or collators.
        eviction_policy: CollatorEvictionPolicy,
        /// The metrics sink for the validator-side engine.
        metrics: validator_side::Metrics,
    },
    /// Collators operate on a shard of the ledger.
    Collator(PeerId, CollatorPair, IncomingRequestReceiver, collator_side::Metrics),
}

/// The invocation of exactly one role engine: which engine the subsystem
/// dispatches to, together with the payload the engine receives.  The
/// hosting runtime awaits the named engine on this payload.
pub enum EngineDispatch {
    /// Await the validator-side engine.
    Validator {
        /// The key-store handle the engine signs and verifies with.
        keystore: KeystoreHandle,
        /// When to evict inactive or undeclared peers.
        eviction_policy: CollatorEvictionPolicy,
        /// The metrics sink for the validator-side engine.
        metrics: validator_side::Metrics,
    },
    /// Await the collator-side engine.
    Collator {
        /// This node's own peer identity.
        local_peer_id: PeerId,
        /// The collator's signing keypair, moved into the engine.
        collator_pair: CollatorPair,
        /// The inbound collation-fetch channel, moved into the engine.
        request_receiver: IncomingRequestReceiver,
        /// The metrics sink for the collator-side engine.
        metrics: collator_side::Metrics,
    },
}

/// The engine invocation a given role maps to: the same tag, carrying the
/// role's payload unchanged.
pub open spec fn spec_dispatch(side: ProtocolSide) -> EngineDispatch {
    match side {
        ProtocolSide::Validator { keystore, eviction_policy, metrics } => {
            EngineDispatch::Validator { keystore, eviction_policy, metrics }
        },
        ProtocolSide::Collator(local_peer_id, collator_pair, request_receiver, metrics) => {
            EngineDispatch::Collator { local_peer_id, collator_pair, request_receiver, metrics }
        },
    }
}

/// Exactly one of the two role engines is invoked for any role: which one is
/// determined solely by the variant supplied at construction — never both,
/// never neither — and the engine receives the role's payload unchanged.
pub proof fn lemma_dispatch_exactly_one(side: ProtocolSide)
    ensures
        spec_dispatch(side) is Validator <==> side is Validator,
        spec_dispatch(side) is Collator <==> side is Collator,
        spec_dispatch(side) is Validator || spec_dispatch(side) is Collator,
        !(spec_dispatch(side) is Validator && spec_dispatch(side) is Collator),
        side matches ProtocolSide::Validator { keystore, eviction_policy, metrics }
            ==> spec_dispatch(side) == (EngineDispatch::Validator {
            keystore,
            eviction_policy,
            metrics,
        }),
        side matches ProtocolSide::Collator(local_peer_id, collator_pair, request_receiver, metrics)
            ==> spec_dispatch(side) == (EngineDispatch::Collator {
            local_peer_id,
            collator_pair,
            request_receiver,
            metrics,
        }),
{
}

/// The collator protocol subsystem.
pub struct CollatorProtocolSubsystem {
    protocol_side: ProtocolSide,
}

impl CollatorProtocolSubsystem {
    /// The role this subsystem was constructed with.
    pub closed spec fn side(self) -> ProtocolSide {
        self.protocol_side
    }

    /// Start the collator protocol.
    /// If the side is `Collator` this is a collator side of the protocol.
    /// If the side is `Validator` this is a validator side of the protocol.
    /// Construction is total: it stores the role by move and cannot fail.
    pub fn new(protocol_side: ProtocolSide) -> (s: Self)
        ensures
            s.side() == protocol_side,
    {
        Self { protocol_side }
    }

    /// The synchronous decision at the heart of the subsystem's run: consume
    /// the subsystem and select the engine invocation its role demands,
    /// forwarding the role payload unchanged.  The hosting runtime then
    /// awaits the chosen engine — the run's single suspension point — and
    /// the engine's result becomes the run's result unchanged.
    pub fn dispatch(self) -> (d: EngineDispatch)
        ensures
            d == spec_dispatch(self.side()),
    {
        match self.protocol_side {
            ProtocolSide::Validator { keystore, eviction_policy, metrics } => {
                EngineDispatch::Validator { keystore, eviction_policy, metrics }
            },
            ProtocolSide::Collator(local_peer_id, collator_pair, request_receiver, metrics) => {
                EngineDispatch::Collator {
                    local_peer_id,
                    collator_pair,
                    request_receiver,
                    metrics,
                }
            },
        }
    }

    /// Adapt the subsystem to the hosting runtime's task convention: the
    /// spawned task carries a fixed human-readable name for diagnostics and
    /// runs the dispatched engine; `tag_run_outcome` turns the engine's
    /// result into the task's resolution.
    pub fn start(self) -> (s: SpawnedSubsystem)
        ensures
            s.name@ == "collator-protocol-subsystem"@,
            s.dispatch == spec_dispatch(self.side()),
    {
        SpawnedSubsystem { name: "collator-protocol-subsystem", dispatch: self.dispatch() }
    }
}

/// The unit of work handed to the hosting runtime's supervisor: a diagnostic
/// task name, and the engine invocation whose outcome — tagged by
/// `tag_run_outcome` — the task resolves to.
pub struct SpawnedSubsystem {
    /// The fixed human-readable task name surfaced to the supervisor.
    pub name: &'static str,
    /// Which engine the task awaits, and with what payload.
    pub dispatch: EngineDispatch,
}

/// How a spawned task's resolution relates to the outcome of the run it
/// wraps: success is passed through untouched, and a failure is the same
/// fatal error annotated with this subsystem's origin tag.
pub open spec fn is_tagged_outcome(
    outcome: Result<(), FatalError>,
    tagged: Result<(), SubsystemError>,
) -> bool {
    match outcome {
        Ok(_) => tagged is Ok,
        Err(e) => tagged matches Err(se) && se.origin@ == "collator-protocol"@ && se.source == e,
    }
}

/// Turn the dispatched engine's result into the spawned task's resolution:
/// any propagated fatal error is tagged with this subsystem's symbolic
/// origin before being surfaced to the supervisor, and nothing else changes.
pub fn tag_run_outcome(outcome: Result<(), FatalError>) -> (r: Result<(), SubsystemError>)
    ensures
        is_tagged_outcome(outcome, r),
        outcome is Ok <==> r is Ok,
{
    match outcome {
        Ok(()) => Ok(()),
        Err(e) => Err(SubsystemError::with_origin("collator-protocol", e)),
    }
}

/// Wrapping a run's outcome for the supervisor preserves it: the task
/// resolves successfully exactly when the run did, and on failure the
/// underlying error kind is unchanged — the only addition is the origin tag,
/// which names this subsystem.
pub proof fn lemma_start_preserves_run_outcome(
    outcome: Result<(), FatalError>,
    tagged: Result<(), SubsystemError>,
)
    requires
        is_tagged_outcome(outcome, tagged),
    ensures
        outcome is Ok <==> tagged is Ok,
        outcome matches Err(e) ==> tagged matches Err(se) && se.source == e && se.origin@
            == "collator-protocol"@,
{
}

/// A reputation report, ready for the runtime to act on: the diagnostic
/// trace record to emit, and the instruction to enqueue for the
/// network-bridge collaborator.
pub struct ReputationReport {
    /// The trace record emitted before the send.
    pub trace: TraceRecord,
    /// The single instruction sent to the network bridge.
    pub message: NetworkBridgeMessage,
}

/// A structured diagnostic record: the fixed target tag, and the reputation
/// change with the peer it concerns.
pub struct TraceRecord {
    /// The symbolic target tag, fixed for this subsystem.
    pub target: &'static str,
    /// The peer whose reputation changes.
    pub peer: PeerId,
    /// The reputation change being reported.
    pub rep: UnifiedReputationChange,
}

/// Modify the reputation of a peer based on its behavior: produce exactly
/// one "report peer" instruction carrying that exact peer and change, and
/// exactly one trace record, whatever the change's sign or magnitude.  The
/// hosting runtime emits the trace and then awaits the enqueue of the
/// message — acknowledged by the local queue, not by the remote peer.
pub fn modify_reputation(peer: PeerId, rep: UnifiedReputationChange) -> (r: ReputationReport)
    ensures
        r.trace.target@ == LOG_TARGET@,
        r.trace.peer == peer,
        r.trace.rep == rep,
        r.message matches NetworkBridgeMessage::ReportPeer(p, c) && p == peer && c == rep,
{
    ReputationReport {
        trace: TraceRecord { target: LOG_TARGET, peer, rep },
        message: NetworkBridgeMessage::ReportPeer(peer, rep),
    }
}

} // verus!
