//! The error taxonomy of the aggregate. Every error is an ordinary return
//! value; a rejected operation never mutates the aggregate. The successor
//! variants carry the true current count so a caller can retry.

use vstd::prelude::*;
use crate::entry::Entries;

verus! {

#[derive(Clone, PartialEq, Eq, Debug)]
pub enum Error {
    /// The principal is identified and the action is explicitly forbidden.
    AccessDenied,
    /// No permission entry resolves for the principal and action.
    InvalidPermissions,
    /// No owner has been recorded yet.
    InvalidOwners,
    /// A causal anchor over the entry count, or an expected permission
    /// position, did not match; carries the correct current value.
    InvalidSuccessor(u64),
    /// The owner count embedded in a permission snapshot did not match;
    /// carries the correct current value.
    InvalidOwnersSuccessor(u64),
    /// The permission count embedded in an owner record did not match;
    /// carries the correct current value.
    InvalidPermissionsSuccessor(u64),
    /// The batch contains two entries with the same key.
    DuplicateEntryKeys,
    /// Batch keys collide with stored keys; carries the offending entries.
    KeysExist(Entries),
    /// An index or lookup is out of bounds.
    NoSuchEntry,
    /// A flavor-mismatched query: the aggregate holds no data of that kind.
    NoSuchData,
    /// An encoded address could not be decoded.
    FailedToParse,
}

} // verus!
