//! Primitive values owned by the collator role.

use vstd::prelude::*;

verus! {

/// A collator's signing keypair.
///
/// Exclusively owned secret material: the value is move-only (deliberately
/// not `Clone`), and ownership transfers into the collator-side engine when
/// the subsystem dispatches.
#[derive(Debug)]
pub struct CollatorPair {
    /// The seed the keypair was derived from.
    pub secret_seed: Vec<u8>,
}

} // verus!
