//! The ownership history's record type: one principal per record, causally
//! anchored to the entry count and permission-history length at the moment
//! the record was appended.

use vstd::prelude::*;

use crate::types::PublicKey;

verus! {

/// One record of the ownership history. A single owner may stand for an
/// individual or for a group, depending on how the key was formed.
#[derive(Copy, Clone, PartialEq, Eq, Structural, PartialOrd, Ord, Hash, Debug)]
pub struct Owner {
    pub public_key: PublicKey,
    /// The entry count of the aggregate when this ownership change happened.
    pub entries_index: u64,
    /// The permission-history length when this ownership change happened.
    pub permissions_index: u64,
}

} // verus!
