//! A handle to the process-wide cryptographic key store.

use vstd::prelude::*;

verus! {

/// A shared capability granting access to the process's key store.
///
/// The store itself is owned elsewhere and may be used by several subsystems
/// at once, so the handle is an index into that shared store, freely
/// copyable, and never a copy of key material.  This crate only passes the
/// handle through to the validator-side engine.
#[derive(Clone, Copy, Debug, PartialEq, Eq, Structural)]
pub struct KeystoreHandle {
    /// Which store in the hosting process the handle designates.
    pub store_index: u64,
}

} // verus!
