//! Identity types consumed by the aggregate: a principal identity and a
//! 256-bit network name. Authentication of principals and the cryptography
//! behind their keys are outside this library; all the aggregate ever does
//! with a principal is compare it for equality, and all it does with a name
//! is store it inside an address.

use vstd::prelude::*;

verus! {

/// An authenticated principal identity, reduced to the 256 bits of key
/// material that identify it. Equality of two values means equality of
/// all four words.
#[derive(Copy, Clone, PartialEq, Eq, Structural, PartialOrd, Ord, Hash, Debug)]
pub struct PublicKey {
    pub w0: u64,
    pub w1: u64,
    pub w2: u64,
    pub w3: u64,
}

impl PublicKey {
    /// Builds a key from its four 64-bit words.
    pub fn new(w0: u64, w1: u64, w2: u64, w3: u64) -> (r: Self)
        ensures
            r == (PublicKey { w0, w1, w2, w3 }),
    {
        PublicKey { w0, w1, w2, w3 }
    }
}

/// A 256-bit name locating an aggregate on the network.
#[derive(Copy, Clone, PartialEq, Eq, PartialOrd, Ord, Hash, Debug)]
pub struct XorName(pub [u8; 32]);

} // verus!
