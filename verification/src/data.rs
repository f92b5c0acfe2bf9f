//! The closed tagged union over the four aggregate flavors. It forwards
//! every operation to the concrete flavor and adds the flavor-independent
//! short-circuit: a public-flavor aggregate always allows reads, before any
//! dispatch. Flavor-mismatched queries fail with `NoSuchData`.

use vstd::prelude::*;

use crate::address::{Address, Kind};
use crate::append_only_data::{
    spec_check_is_last_owner, spec_check_permission, spec_lookup_at, spec_shell_owners,
    spec_shell_perms, PubSeqAppendOnlyData, PubUnseqAppendOnlyData, UnpubSeqAppendOnlyData,
    UnpubUnseqAppendOnlyData,
};
use crate::entry::{spec_get, Entries, Entry};
use crate::errors::Error;
use crate::index::{spec_resolve_index, spec_resolve_range, Index, Indices};
use crate::owner::Owner;
use crate::permissions::{
    spec_lookup_pub, spec_lookup_unpub, lookup_pub, lookup_unpub, Action, Perm,
    PubPermissionSet, PubPermissions, UnpubPermissionSet, UnpubPermissions, User,
};
use crate::types::{PublicKey, XorName};

verus! {

/// An aggregate of any of the four flavors.
#[derive(PartialEq, Eq, PartialOrd, Ord, Hash, Debug)]
pub enum Data {
    PubSeq(PubSeqAppendOnlyData),
    PubUnseq(PubUnseqAppendOnlyData),
    UnpubSeq(UnpubSeqAppendOnlyData),
    UnpubUnseq(UnpubUnseqAppendOnlyData),
}

/// A proposed entry append, addressed to an aggregate on the network.
#[derive(PartialEq, Eq, PartialOrd, Ord, Hash, Debug)]
pub struct AppendOperation {
    /// The address of the aggregate the entries are meant for.
    pub address: Address,
    /// The entries to append.
    pub values: Entries,
}

/// Whether a shell's permission history holds exactly the snapshots of the
/// original whose recorded entry count is at most `target`, structurally.
pub open spec fn spec_perms_match_shell<P: Perm>(
    shell: Seq<P>,
    orig: Seq<P>,
    target: u64,
) -> bool {
    &&& shell.len() == spec_shell_perms(orig, target).len()
    &&& forall|i: int|
        0 <= i < shell.len() ==> shell[i].congruent(&spec_shell_perms(orig, target)[i])
}

impl Data {
    /// The address of this aggregate.
    pub open spec fn spec_address(self) -> Address {
        match self {
            Data::PubSeq(data) => data.address,
            Data::PubUnseq(data) => data.address,
            Data::UnpubSeq(data) => data.address,
            Data::UnpubUnseq(data) => data.address,
        }
    }

    /// The stored entries of this aggregate.
    pub open spec fn spec_entries(self) -> Seq<Entry> {
        match self {
            Data::PubSeq(data) => data.data@,
            Data::PubUnseq(data) => data.data@,
            Data::UnpubSeq(data) => data.data@,
            Data::UnpubUnseq(data) => data.data@,
        }
    }

    /// The ownership history of this aggregate.
    pub open spec fn spec_owners(self) -> Seq<Owner> {
        match self {
            Data::PubSeq(data) => data.owners@,
            Data::PubUnseq(data) => data.owners@,
            Data::UnpubSeq(data) => data.owners@,
            Data::UnpubUnseq(data) => data.owners@,
        }
    }

    /// The permission-history length of this aggregate.
    pub open spec fn spec_permissions_len(self) -> nat {
        match self {
            Data::PubSeq(data) => data.permissions@.len(),
            Data::PubUnseq(data) => data.permissions@.len(),
            Data::UnpubSeq(data) => data.permissions@.len(),
            Data::UnpubUnseq(data) => data.permissions@.len(),
        }
    }

    /// Whether this aggregate has a public flavor.
    pub open spec fn spec_is_pub(self) -> bool {
        self is PubSeq || self is PubUnseq
    }

    /// The permission snapshot a public-flavor aggregate holds at the
    /// resolved index.
    pub open spec fn spec_pub_permission_at(self, index: Index) -> Option<PubPermissions> {
        match self {
            Data::PubSeq(data) => spec_lookup_at(data.permissions@, index),
            Data::PubUnseq(data) => spec_lookup_at(data.permissions@, index),
            _ => None,
        }
    }

    /// The permission snapshot a private-flavor aggregate holds at the
    /// resolved index.
    pub open spec fn spec_unpub_permission_at(self, index: Index) -> Option<UnpubPermissions> {
        match self {
            Data::UnpubSeq(data) => spec_lookup_at(data.permissions@, index),
            Data::UnpubUnseq(data) => spec_lookup_at(data.permissions@, index),
            _ => None,
        }
    }

    /// The decision of this aggregate on `requester` performing `action`:
    /// public-flavor reads are always allowed, before the flavor's own
    /// evaluator is consulted at all.
    pub open spec fn spec_check_permission(self, action: Action, requester: PublicKey) -> Result<
        (),
        Error,
    > {
        if self.spec_is_pub() && action == Action::Read {
            Ok(())
        } else {
            match self {
                Data::PubSeq(data) => spec_check_permission(
                    data.owners@,
                    data.permissions@,
                    requester,
                    action,
                ),
                Data::PubUnseq(data) => spec_check_permission(
                    data.owners@,
                    data.permissions@,
                    requester,
                    action,
                ),
                Data::UnpubSeq(data) => spec_check_permission(
                    data.owners@,
                    data.permissions@,
                    requester,
                    action,
                ),
                Data::UnpubUnseq(data) => spec_check_permission(
                    data.owners@,
                    data.permissions@,
                    requester,
                    action,
                ),
            }
        }
    }

    /// Decides whether `requester` may perform `action` on this aggregate.
    pub fn check_permission(&self, action: Action, requester: PublicKey) -> (r: Result<
        (),
        Error,
    >)
        ensures
            r == self.spec_check_permission(action, requester),
    {
        match (self, action) {
            (Data::PubSeq(_), Action::Read) | (Data::PubUnseq(_), Action::Read) => {
                return Ok(())
            },
            _ => (),
        }
        match self {
            Data::PubSeq(data) => data.check_permission(requester, action),
            Data::PubUnseq(data) => data.check_permission(requester, action),
            Data::UnpubSeq(data) => data.check_permission(requester, action),
            Data::UnpubUnseq(data) => data.check_permission(requester, action),
        }
    }

    /// The address of this aggregate.
    pub fn address(&self) -> (r: &Address)
        ensures
            *r == self.spec_address(),
    {
        match self {
            Data::PubSeq(data) => data.address(),
            Data::PubUnseq(data) => data.address(),
            Data::UnpubSeq(data) => data.address(),
            Data::UnpubUnseq(data) => data.address(),
        }
    }

    /// The flavor of this aggregate.
    pub fn kind(&self) -> (r: Kind)
        ensures
            r == self.spec_address().spec_kind(),
    {
        self.address().kind()
    }

    /// The name of this aggregate.
    pub fn name(&self) -> (r: &XorName)
        ensures
            *r == self.spec_address().spec_name(),
    {
        self.address().name()
    }

    /// The tag of this aggregate.
    pub fn tag(&self) -> (r: u64)
        ensures
            r == self.spec_address().spec_tag(),
    {
        self.address().tag()
    }

    /// Whether this aggregate has a public flavor.
    pub fn is_pub(&self) -> (r: bool)
        ensures
            r == self.spec_is_pub(),
    {
        matches!(self, Data::PubSeq(_) | Data::PubUnseq(_))
    }

    /// Whether this aggregate has a private flavor.
    pub fn is_unpub(&self) -> (r: bool)
        ensures
            r == !self.spec_is_pub(),
    {
        !self.is_pub()
    }

    /// Whether this aggregate uses the counted append discipline.
    pub fn is_seq(&self) -> (r: bool)
        ensures
            r == (self is PubSeq || self is UnpubSeq),
    {
        matches!(self, Data::PubSeq(_) | Data::UnpubSeq(_))
    }

    /// Whether this aggregate uses the uncounted append discipline.
    pub fn is_unseq(&self) -> (r: bool)
        ensures
            r == !(self is PubSeq || self is UnpubSeq),
    {
        !self.is_seq()
    }

    /// The current entry count.
    pub fn entries_index(&self) -> (r: u64)
        ensures
            r == self.spec_entries().len() as u64,
    {
        match self {
            Data::PubSeq(data) => data.entries_index(),
            Data::PubUnseq(data) => data.entries_index(),
            Data::UnpubSeq(data) => data.entries_index(),
            Data::UnpubUnseq(data) => data.entries_index(),
        }
    }

    /// The current permission-history length.
    pub fn permissions_index(&self) -> (r: u64)
        ensures
            r == self.spec_permissions_len() as u64,
    {
        match self {
            Data::PubSeq(data) => data.permissions_index(),
            Data::PubUnseq(data) => data.permissions_index(),
            Data::UnpubSeq(data) => data.permissions_index(),
            Data::UnpubUnseq(data) => data.permissions_index(),
        }
    }

    /// The current owner-history length.
    pub fn owners_index(&self) -> (r: u64)
        ensures
            r == self.spec_owners().len() as u64,
    {
        match self {
            Data::PubSeq(data) => data.owners_index(),
            Data::PubUnseq(data) => data.owners_index(),
            Data::UnpubSeq(data) => data.owners_index(),
            Data::UnpubUnseq(data) => data.owners_index(),
        }
    }

    /// The entries of the resolved half-open range, as faithful copies.
    pub fn in_range(&self, start: Index, end: Index) -> (r: Option<Entries>)
        ensures
            r is Some <==> spec_resolve_range(start, end, self.spec_entries().len() as int)
                is Some,
            r matches Some(es) ==> {
                let rng = spec_resolve_range(start, end, self.spec_entries().len() as int)->0;
                &&& es@.len() == rng.1 - rng.0
                &&& forall|i: int|
                    0 <= i < es@.len() ==> es@[i]@ == self.spec_entries()[rng.0 + i]@
            },
    {
        match self {
            Data::PubSeq(data) => data.in_range(start, end),
            Data::PubUnseq(data) => data.in_range(start, end),
            Data::UnpubSeq(data) => data.in_range(start, end),
            Data::UnpubUnseq(data) => data.in_range(start, end),
        }
    }

    /// The value stored under `key`, if any entry carries that key.
    pub fn get(&self, key: &[u8]) -> (r: Option<&Vec<u8>>)
        ensures
            r is Some <==> spec_get(self.spec_entries(), key@) is Some,
            r matches Some(v) ==> Some(v@) == spec_get(self.spec_entries(), key@),
    {
        match self {
            Data::PubSeq(data) => data.get(key),
            Data::PubUnseq(data) => data.get(key),
            Data::UnpubSeq(data) => data.get(key),
            Data::UnpubUnseq(data) => data.get(key),
        }
    }

    /// The triple of current counts.
    pub fn indices(&self) -> (r: Indices)
        ensures
            r == (Indices {
                entries_index: self.spec_entries().len() as u64,
                owners_index: self.spec_owners().len() as u64,
                permissions_index: self.spec_permissions_len() as u64,
            }),
    {
        match self {
            Data::PubSeq(data) => data.indices(),
            Data::PubUnseq(data) => data.indices(),
            Data::UnpubSeq(data) => data.indices(),
            Data::UnpubUnseq(data) => data.indices(),
        }
    }

    /// The most recently appended entry, if any entry exists.
    pub fn last_entry(&self) -> (r: Option<&Entry>)
        ensures
            r is Some <==> self.spec_entries().len() > 0,
            r matches Some(e) ==> *e == self.spec_entries().last(),
    {
        match self {
            Data::PubSeq(data) => data.last_entry(),
            Data::PubUnseq(data) => data.last_entry(),
            Data::UnpubSeq(data) => data.last_entry(),
            Data::UnpubUnseq(data) => data.last_entry(),
        }
    }

    /// The owner record a logical index denotes.
    pub fn owner(&self, owners_index: Index) -> (r: Option<&Owner>)
        ensures
            r is Some <==> spec_lookup_at(self.spec_owners(), owners_index) is Some,
            r matches Some(o) ==> Some(*o) == spec_lookup_at(self.spec_owners(), owners_index),
    {
        match self {
            Data::PubSeq(data) => data.owner(owners_index),
            Data::PubUnseq(data) => data.owner(owners_index),
            Data::UnpubSeq(data) => data.owner(owners_index),
            Data::UnpubUnseq(data) => data.owner(owners_index),
        }
    }

    /// Decides whether `requester` is the current last owner.
    pub fn check_is_last_owner(&self, requester: PublicKey) -> (r: Result<(), Error>)
        ensures
            r == spec_check_is_last_owner(self.spec_owners(), requester),
    {
        match self {
            Data::PubSeq(data) => data.check_is_last_owner(requester),
            Data::PubUnseq(data) => data.check_is_last_owner(requester),
            Data::UnpubSeq(data) => data.check_is_last_owner(requester),
            Data::UnpubUnseq(data) => data.check_is_last_owner(requester),
        }
    }

    /// The permission snapshot at the resolved index of a public-flavor
    /// aggregate; `NoSuchData` on a private flavor.
    pub fn pub_permissions(&self, index: Index) -> (r: Result<&PubPermissions, Error>)
        ensures
            !self.spec_is_pub() ==> r == Err::<&PubPermissions, Error>(Error::NoSuchData),
            self.spec_is_pub() ==> match r {
                Ok(p) => Some(*p) == self.spec_pub_permission_at(index),
                Err(e) => e == Error::NoSuchEntry && self.spec_pub_permission_at(index)
                    is None,
            },
    {
        let perms = match self {
            Data::PubSeq(data) => data.permissions(index),
            Data::PubUnseq(data) => data.permissions(index),
            _ => { return Err(Error::NoSuchData) },
        };
        match perms {
            Some(p) => Ok(p),
            None => Err(Error::NoSuchEntry),
        }
    }

    /// The permission snapshot at the resolved index of a private-flavor
    /// aggregate; `NoSuchData` on a public flavor.
    pub fn unpub_permissions(&self, index: Index) -> (r: Result<&UnpubPermissions, Error>)
        ensures
            self.spec_is_pub() ==> r == Err::<&UnpubPermissions, Error>(Error::NoSuchData),
            !self.spec_is_pub() ==> match r {
                Ok(p) => Some(*p) == self.spec_unpub_permission_at(index),
                Err(e) => e == Error::NoSuchEntry && self.spec_unpub_permission_at(index)
                    is None,
            },
    {
        let perms = match self {
            Data::UnpubSeq(data) => data.permissions(index),
            Data::UnpubUnseq(data) => data.permissions(index),
            _ => { return Err(Error::NoSuchData) },
        };
        match perms {
            Some(p) => Ok(p),
            None => Err(Error::NoSuchEntry),
        }
    }

    /// The permission set the snapshot at the resolved index records for
    /// `user`; `NoSuchEntry` when the index or the user is absent, and
    /// `NoSuchData` on a private flavor.
    pub fn pub_user_permissions(&self, user: User, index: Index) -> (r: Result<
        PubPermissionSet,
        Error,
    >)
        ensures
            !self.spec_is_pub() ==> r == Err::<PubPermissionSet, Error>(Error::NoSuchData),
            self.spec_is_pub() ==> r == (match self.spec_pub_permission_at(index) {
                Some(p) => match spec_lookup_pub(p.permissions@, user) {
                    Some(ps) => Ok(ps),
                    None => Err::<PubPermissionSet, Error>(Error::NoSuchEntry),
                },
                None => Err::<PubPermissionSet, Error>(Error::NoSuchEntry),
            }),
    {
        match self.pub_permissions(index) {
            Ok(p) => match lookup_pub(&p.permissions, user) {
                Some(ps) => Ok(ps),
                None => Err(Error::NoSuchEntry),
            },
            Err(e) => Err(e),
        }
    }

    /// The permission set the snapshot at the resolved index records for
    /// `user`; `NoSuchEntry` when the index or the user is absent, and
    /// `NoSuchData` on a public flavor.
    pub fn unpub_user_permissions(&self, user: PublicKey, index: Index) -> (r: Result<
        UnpubPermissionSet,
        Error,
    >)
        ensures
            self.spec_is_pub() ==> r == Err::<UnpubPermissionSet, Error>(Error::NoSuchData),
            !self.spec_is_pub() ==> r == (match self.spec_unpub_permission_at(index) {
                Some(p) => match spec_lookup_unpub(p.permissions@, user) {
                    Some(ps) => Ok(ps),
                    None => Err::<UnpubPermissionSet, Error>(Error::NoSuchEntry),
                },
                None => Err::<UnpubPermissionSet, Error>(Error::NoSuchEntry),
            }),
    {
        match self.unpub_permissions(index) {
            Ok(p) => match lookup_unpub(&p.permissions, user) {
                Some(ps) => Ok(ps),
                None => Err(Error::NoSuchEntry),
            },
            Err(e) => Err(e),
        }
    }

    /// The shell of this aggregate as of the resolved entry count: same
    /// flavor and address, no entries, and both histories restricted to the
    /// records whose recorded entry count is at most the target.
    pub fn shell(&self, index: Index) -> (r: Result<Self, Error>)
        ensures
            match r {
                Ok(sh) => {
                    let target = spec_resolve_index(
                        index,
                        self.spec_entries().len() as int,
                    )->0 as u64;
                    &&& spec_resolve_index(index, self.spec_entries().len() as int) is Some
                    &&& sh.spec_address() == self.spec_address()
                    &&& sh.spec_entries().len() == 0
                    &&& sh.spec_owners() == spec_shell_owners(self.spec_owners(), target)
                    &&& match (self, sh) {
                        (Data::PubSeq(orig), Data::PubSeq(s)) => spec_perms_match_shell(
                            s.permissions@,
                            orig.permissions@,
                            target,
                        ),
                        (Data::PubUnseq(orig), Data::PubUnseq(s)) => spec_perms_match_shell(
                            s.permissions@,
                            orig.permissions@,
                            target,
                        ),
                        (Data::UnpubSeq(orig), Data::UnpubSeq(s)) => spec_perms_match_shell(
                            s.permissions@,
                            orig.permissions@,
                            target,
                        ),
                        (Data::UnpubUnseq(orig), Data::UnpubUnseq(s)) => spec_perms_match_shell(
                            s.permissions@,
                            orig.permissions@,
                            target,
                        ),
                        _ => false,
                    }
                },
                Err(e) => {
                    &&& e == Error::NoSuchEntry
                    &&& spec_resolve_index(index, self.spec_entries().len() as int) is None
                },
            },
    {
        match self {
            Data::PubSeq(adata) => match adata.shell(index) {
                Ok(s) => Ok(Data::PubSeq(s)),
                Err(e) => Err(e),
            },
            Data::PubUnseq(adata) => match adata.shell(index) {
                Ok(s) => Ok(Data::PubUnseq(s)),
                Err(e) => Err(e),
            },
            Data::UnpubSeq(adata) => match adata.shell(index) {
                Ok(s) => Ok(Data::UnpubSeq(s)),
                Err(e) => Err(e),
            },
            Data::UnpubUnseq(adata) => match adata.shell(index) {
                Ok(s) => Ok(Data::UnpubUnseq(s)),
                Err(e) => Err(e),
            },
        }
    }
}

impl From<PubSeqAppendOnlyData> for Data {
    fn from(data: PubSeqAppendOnlyData) -> (r: Self) {
        Data::PubSeq(data)
    }
}

impl vstd::std_specs::convert::FromSpecImpl<PubSeqAppendOnlyData> for Data {
    open spec fn obeys_from_spec() -> bool {
        true
    }

    open spec fn from_spec(data: PubSeqAppendOnlyData) -> Self {
        Data::PubSeq(data)
    }
}

impl From<PubUnseqAppendOnlyData> for Data {
    fn from(data: PubUnseqAppendOnlyData) -> (r: Self) {
        Data::PubUnseq(data)
    }
}

impl vstd::std_specs::convert::FromSpecImpl<PubUnseqAppendOnlyData> for Data {
    open spec fn obeys_from_spec() -> bool {
        true
    }

    open spec fn from_spec(data: PubUnseqAppendOnlyData) -> Self {
        Data::PubUnseq(data)
    }
}

impl From<UnpubSeqAppendOnlyData> for Data {
    fn from(data: UnpubSeqAppendOnlyData) -> (r: Self) {
        Data::UnpubSeq(data)
    }
}

impl vstd::std_specs::convert::FromSpecImpl<UnpubSeqAppendOnlyData> for Data {
    open spec fn obeys_from_spec() -> bool {
        true
    }

    open spec fn from_spec(data: UnpubSeqAppendOnlyData) -> Self {
        Data::UnpubSeq(data)
    }
}

impl From<UnpubUnseqAppendOnlyData> for Data {
    fn from(data: UnpubUnseqAppendOnlyData) -> (r: Self) {
        Data::UnpubUnseq(data)
    }
}

impl vstd::std_specs::convert::FromSpecImpl<UnpubUnseqAppendOnlyData> for Data {
    open spec fn obeys_from_spec() -> bool {
        true
    }

    open spec fn from_spec(data: UnpubUnseqAppendOnlyData) -> Self {
        Data::UnpubUnseq(data)
    }
}

/// Law: a public-flavor aggregate allows a `Read` to any principal,
/// whatever owners or permissions are configured.
pub proof fn lemma_public_read_always_allowed(d: Data, requester: PublicKey)
    requires
        d.spec_is_pub(),
    ensures
        d.spec_check_permission(Action::Read, requester) == Ok::<(), Error>(()),
{
}

/// Law: the current last owner is allowed every action, on every flavor.
pub proof fn lemma_last_owner_allowed_every_action(
    d: Data,
    requester: PublicKey,
    action: Action,
)
    requires
        d.spec_owners().len() > 0,
        d.spec_owners().last().public_key == requester,
    ensures
        d.spec_check_permission(action, requester) == Ok::<(), Error>(()),
{
}

} // verus!
