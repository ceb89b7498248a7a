use collator_protocol::collator_side;
use collator_protocol::error::FatalError;
use collator_protocol::keystore::KeystoreHandle;
use collator_protocol::network::{CollationFetchingRequest, IncomingRequestReceiver, PeerId};
use collator_protocol::primitives::CollatorPair;
use collator_protocol::validator_side;
use collator_protocol::{
    tag_run_outcome, CollatorEvictionPolicy, CollatorProtocolSubsystem, EngineDispatch,
    ProtocolSide,
};

#[test]
fn default_eviction_policy_is_exactly_24_and_1() {
    let policy = CollatorEvictionPolicy::default();
    assert_eq!(policy.inactive_collator, 24);
    assert_eq!(policy.undeclared, 1);
}

#[test]
fn eviction_policy_fields_need_no_ordering() {
    // A policy whose undeclared timeout exceeds the inactivity timeout is
    // representable; nothing rejects it structurally.
    let policy = CollatorEvictionPolicy { inactive_collator: 1, undeclared: 60 };
    assert_eq!(policy.inactive_collator, 1);
    assert_eq!(policy.undeclared, 60);
}

#[test]
fn validator_role_dispatches_validator_engine_with_default_policy() {
    let side = ProtocolSide::Validator {
        keystore: KeystoreHandle { store_index: 3 },
        eviction_policy: CollatorEvictionPolicy::default(),
        metrics: validator_side::Metrics { enabled: true },
    };
    let subsystem = CollatorProtocolSubsystem::new(side);
    match subsystem.dispatch() {
        EngineDispatch::Validator { keystore, eviction_policy, metrics } => {
            assert_eq!(keystore, KeystoreHandle { store_index: 3 });
            assert_eq!(eviction_policy.inactive_collator, 24);
            assert_eq!(eviction_policy.undeclared, 1);
            assert!(metrics.enabled);
        }
        EngineDispatch::Collator { .. } => {
            panic!("a validator role must never invoke the collator engine")
        }
    }
}

#[test]
fn validator_role_forwards_explicit_policy_unchanged() {
    let side = ProtocolSide::Validator {
        keystore: KeystoreHandle { store_index: 0 },
        eviction_policy: CollatorEvictionPolicy {
            inactive_collator: u64::MAX,
            undeclared: u64::MAX,
        },
        metrics: validator_side::Metrics::default(),
    };
    let subsystem = CollatorProtocolSubsystem::new(side);
    match subsystem.dispatch() {
        EngineDispatch::Validator { eviction_policy, metrics, .. } => {
            assert_eq!(eviction_policy.inactive_collator, u64::MAX);
            assert_eq!(eviction_policy.undeclared, u64::MAX);
            assert!(!metrics.enabled);
        }
        EngineDispatch::Collator { .. } => {
            panic!("a validator role must never invoke the collator engine")
        }
    }
}

#[test]
fn collator_role_with_closed_channel_still_dispatches_collator_engine() {
    // A closed inbound channel is the engine's concern: dispatch neither
    // panics nor errors, and the payload arrives untouched.
    let side = ProtocolSide::Collator(
        PeerId(42),
        CollatorPair { secret_seed: vec![9, 9, 9] },
        IncomingRequestReceiver { pending: Vec::new(), closed: true },
        collator_side::Metrics { enabled: false },
    );
    let subsystem = CollatorProtocolSubsystem::new(side);
    match subsystem.dispatch() {
        EngineDispatch::Collator { local_peer_id, collator_pair, request_receiver, metrics } => {
            assert_eq!(local_peer_id, PeerId(42));
            assert_eq!(collator_pair.secret_seed, vec![9, 9, 9]);
            assert!(request_receiver.closed);
            assert!(request_receiver.pending.is_empty());
            assert!(!metrics.enabled);
        }
        EngineDispatch::Validator { .. } => {
            panic!("a collator role must never invoke the validator engine")
        }
    }
}

#[test]
fn collator_role_forwards_pending_requests_unchanged() {
    let request = CollationFetchingRequest { relay_parent: 77, para_id: 2000 };
    let side = ProtocolSide::Collator(
        PeerId(1),
        CollatorPair { secret_seed: vec![4] },
        IncomingRequestReceiver { pending: vec![request], closed: false },
        collator_side::Metrics { enabled: true },
    );
    let subsystem = CollatorProtocolSubsystem::new(side);
    match subsystem.dispatch() {
        EngineDispatch::Collator { request_receiver, metrics, .. } => {
            assert_eq!(request_receiver.pending, vec![request]);
            assert!(!request_receiver.closed);
            assert!(metrics.enabled);
        }
        EngineDispatch::Validator { .. } => {
            panic!("a collator role must never invoke the validator engine")
        }
    }
}

#[test]
fn start_names_the_task_and_keeps_the_dispatch() {
    let side = ProtocolSide::Validator {
        keystore: KeystoreHandle { store_index: 11 },
        eviction_policy: CollatorEvictionPolicy::default(),
        metrics: validator_side::Metrics::default(),
    };
    let spawned = CollatorProtocolSubsystem::new(side).start();
    assert_eq!(spawned.name, "collator-protocol-subsystem");
    assert!(matches!(spawned.dispatch, EngineDispatch::Validator { .. }));
}

#[test]
fn successful_run_resolves_the_task_without_error() {
    let tagged = tag_run_outcome(Ok(()));
    assert!(tagged.is_ok());
}

#[test]
fn fatal_error_is_tagged_with_the_subsystem_origin() {
    let tagged = tag_run_outcome(Err(FatalError::MessageBusClosed));
    match tagged {
        Err(error) => {
            assert_eq!(error.origin, "collator-protocol");
            assert_eq!(error.source, FatalError::MessageBusClosed);
        }
        Ok(()) => panic!("a fatal engine error must fail the task"),
    }
}

#[test]
fn closed_request_channel_error_keeps_its_kind() {
    let tagged = tag_run_outcome(Err(FatalError::RequestChannelClosed));
    match tagged {
        Err(error) => {
            assert_eq!(error.origin, "collator-protocol");
            assert_eq!(error.source, FatalError::RequestChannelClosed);
        }
        Ok(()) => panic!("a fatal engine error must fail the task"),
    }
}
