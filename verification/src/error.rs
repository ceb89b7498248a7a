//! The error vocabulary of the subsystem.
//!
//! Any failure surfaced by a dispatched role engine is fatal to this
//! subsystem: it is tagged with the subsystem's origin and handed to the
//! supervising runtime unchanged in kind, never retried and never
//! downgraded.

use vstd::prelude::*;

verus! {

/// An unrecoverable failure surfaced by a dispatched role engine.
#[derive(Clone, Copy, Debug, PartialEq, Eq, Structural)]
pub enum FatalError {
    /// The actor runtime's message bus closed unexpectedly.
    MessageBusClosed,
    /// The inbound collation-fetch request channel closed unexpectedly.
    RequestChannelClosed,
}

/// A fatal error as surfaced to the supervising runtime: the underlying
/// failure, annotated with the symbolic name of the subsystem it came from.
#[derive(Clone, Copy, Debug)]
pub struct SubsystemError {
    /// The symbolic name of the subsystem the failure originated in.
    pub origin: &'static str,
    /// The underlying failure, unchanged in kind.
    pub source: FatalError,
}

impl SubsystemError {
    /// Annotate a fatal error with the subsystem it originated in.
    pub fn with_origin(origin: &'static str, source: FatalError) -> (r: Self)
        ensures
            r.origin == origin,
            r.source == source,
    {
        SubsystemError { origin, source }
    }
}

} // verus!
