use vstd::prelude::*;

verus! {

/// An opaque participant identity (a 32-byte public key held as two halves),
/// compared only by equality.
#[derive(Clone, Copy, Debug, PartialEq, Eq, Structural)]
pub struct Identity {
    pub hi: u128,
    pub lo: u128,
}

} // verus!
