//! An in-memory, network-addressable, append-only log of key/value entries,
//! paired with two independently versioned append-only histories: an ownership
//! history and an access-control (permission) history. Every mutation of one
//! history is causally anchored to the current lengths of the others, giving
//! callers an optimistic compare-and-retry discipline.

pub mod address;
pub mod append_only_data;
pub mod data;
pub mod entry;
pub mod errors;
pub mod index;
pub mod owner;
pub mod permissions;
pub mod types;

pub use address::{Address, Kind};
pub use append_only_data::{
    AppendOnlyData, PubSeqAppendOnlyData, PubUnseqAppendOnlyData, Sequenced,
    UnpubSeqAppendOnlyData, UnpubUnseqAppendOnlyData, Unsequenced,
};
pub use data::{AppendOperation, Data};
pub use entry::{Entries, Entry};
pub use owner::Owner;
pub use errors::Error;
pub use index::{Index, Indices};
pub use permissions::{
    Action, Perm, Permissions, PubPermissionSet, PubPermissions, UnpubPermissionSet,
    UnpubPermissions, User,
};
pub use types::{PublicKey, XorName};
