//! The collator side's share of this crate's vocabulary.
//!
//! The collator-side engine itself — peer connection management and the
//! servicing of collation-fetch requests — is an external collaborator
//! driven by the hosting runtime; this crate only defines what the
//! dispatcher hands it.

use vstd::prelude::*;

verus! {

/// The metrics sink handed to the collator-side engine.
#[derive(Clone, Copy, Debug, PartialEq, Eq, Structural)]
pub struct Metrics {
    /// Whether a metrics registry was attached; when false, recording is a
    /// no-op.
    pub enabled: bool,
}

impl Default for Metrics {
    /// With no registry attached, metrics recording is disabled.
    fn default() -> (r: Self)
        ensures
            !r.enabled,
    {
        Metrics { enabled: false }
    }
}

} // verus!
