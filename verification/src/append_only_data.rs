//! The aggregate itself: an append-only log of key/value entries together
//! with its ownership history and permission history. One generic type
//! covers all four flavors; the permission policy is the type parameter
//! `P` and the append discipline is the marker parameter `S`. Every append
//! is all-or-nothing: a rejected operation leaves the aggregate unchanged.

use vstd::prelude::*;

use crate::address::Address;
use crate::entry::{
    spec_conflicts, spec_contains_key, spec_get, spec_has_intra_dup, spec_views, Entries, Entry,
};
use crate::errors::Error;
use crate::index::{
    spec_resolve_index, spec_resolve_range, to_absolute_index, to_absolute_range, Index, Indices,
};
use crate::owner::Owner;
use crate::permissions::{Action, Perm, PubPermissions, UnpubPermissions};
use crate::types::{PublicKey, XorName};

verus! {

/// Marker of the counted append discipline: every entry append must present
/// the expected current entry count.
#[derive(Copy, Clone, PartialEq, Eq, Structural, PartialOrd, Ord, Hash, Debug)]
pub struct Sequenced;

/// Marker of the uncounted append discipline: entry appends carry no
/// expected count.
#[derive(Copy, Clone, PartialEq, Eq, Structural, PartialOrd, Ord, Hash, Debug)]
pub struct Unsequenced;

/// An append-only aggregate: an address, the entry log, the permission
/// history and the ownership history. The three counts exposed by the
/// accessors are pure lengths of the histories, never separate state.
#[derive(PartialEq, Eq, PartialOrd, Ord, Hash, Debug)]
pub struct AppendOnlyData<P, S> {
    pub address: Address,
    pub data: Entries,
    pub permissions: Vec<P>,
    pub owners: Vec<Owner>,
    pub flavour: S,
}

pub type PubSeqAppendOnlyData = AppendOnlyData<PubPermissions, Sequenced>;

pub type PubUnseqAppendOnlyData = AppendOnlyData<PubPermissions, Unsequenced>;

pub type UnpubSeqAppendOnlyData = AppendOnlyData<UnpubPermissions, Sequenced>;

pub type UnpubUnseqAppendOnlyData = AppendOnlyData<UnpubPermissions, Unsequenced>;

/// The element of `s` a logical index denotes, if it resolves to a
/// position strictly inside the sequence.
pub open spec fn spec_lookup_at<T>(s: Seq<T>, index: Index) -> Option<T> {
    match spec_resolve_index(index, s.len() as int) {
        Some(i) => if i < s.len() {
            Some(s[i])
        } else {
            None
        },
        None => None,
    }
}

/// The access decision of an aggregate with the given histories: no owner
/// means the aggregate is unconfigured; the current last owner bypasses the
/// permission history entirely; otherwise the latest permission snapshot
/// decides, and its absence means unconfigured.
pub open spec fn spec_check_permission<P: Perm>(
    owners: Seq<Owner>,
    permissions: Seq<P>,
    requester: PublicKey,
    action: Action,
) -> Result<(), Error> {
    if owners.len() == 0 {
        Err(Error::InvalidOwners)
    } else if owners.last().public_key == requester {
        Ok(())
    } else if permissions.len() == 0 {
        Err(Error::InvalidPermissions)
    } else {
        permissions.last().spec_is_action_allowed(requester, action)
    }
}

/// The ownership decision: the requester must equal the latest owner; an
/// empty history means no owner is configured at all.
pub open spec fn spec_check_is_last_owner(owners: Seq<Owner>, requester: PublicKey) -> Result<
    (),
    Error,
> {
    if owners.len() == 0 {
        Err(Error::InvalidOwners)
    } else if owners.last().public_key == requester {
        Ok(())
    } else {
        Err(Error::AccessDenied)
    }
}

/// The prefix-filtered permission history of a shell: exactly the snapshots
/// whose recorded entry count is at most `target`, in order.
pub open spec fn spec_shell_perms<P: Perm>(s: Seq<P>, target: u64) -> Seq<P>
    decreases s.len(),
{
    if s.len() == 0 {
        Seq::empty()
    } else {
        let rest = spec_shell_perms(s.drop_last(), target);
        if s.last().spec_entries_index() <= target {
            rest.push(s.last())
        } else {
            rest
        }
    }
}

/// The prefix-filtered ownership history of a shell: exactly the records
/// whose recorded entry count is at most `target`, in order.
pub open spec fn spec_shell_owners(s: Seq<Owner>, target: u64) -> Seq<Owner>
    decreases s.len(),
{
    if s.len() == 0 {
        Seq::empty()
    } else {
        let rest = spec_shell_owners(s.drop_last(), target);
        if s.last().entries_index <= target {
            rest.push(s.last())
        } else {
            rest
        }
    }
}

/// The shared duplicate-key discipline of both append disciplines: a batch
/// that collides with itself fails with `DuplicateEntryKeys`; otherwise a
/// batch whose keys collide with stored keys fails with `KeysExist`
/// carrying exactly the offending entries, in batch order.
pub fn check_dup(data: &Vec<Entry>, batch: &Vec<Entry>) -> (r: Result<(), Error>)
    ensures
        match r {
            Ok(()) => {
                &&& !spec_has_intra_dup(batch@)
                &&& forall|i: int|
                    0 <= i < batch@.len() ==> !spec_contains_key(data@, batch@[i]@.key)
            },
            Err(e) => match e {
                Error::DuplicateEntryKeys => spec_has_intra_dup(batch@),
                Error::KeysExist(d) => {
                    &&& !spec_has_intra_dup(batch@)
                    &&& d@.len() > 0
                    &&& spec_views(d@) == spec_views(spec_conflicts(data@, batch@))
                },
                _ => false,
            },
        },
{
    let n = batch.len();
    for i in 0..n
        invariant
            n == batch@.len(),
            forall|p: int, q: int| 0 <= p < q < i ==> batch@[p]@.key != batch@[q]@.key,
    {
        for j in 0..i
            invariant
                i < n == batch@.len(),
                forall|p: int, q: int| 0 <= p < q < i ==> batch@[p]@.key != batch@[q]@.key,
                forall|q: int| 0 <= q < j ==> batch@[q]@.key != batch@[i as int]@.key,
        {
            if crate::entry::bytes_eq(batch[j].key.as_slice(), batch[i].key.as_slice()) {
                proof {
                    assert(0 <= j < i < batch@.len()
                        && batch@[j as int]@.key == batch@[i as int]@.key);
                }
                return Err(Error::DuplicateEntryKeys);
            }
        }
    }
    assert(!spec_has_intra_dup(batch@));

    let mut dup: Entries = Vec::new();
    for i in 0..n
        invariant
            n == batch@.len(),
            spec_views(dup@) == spec_views(spec_conflicts(data@, batch@.subrange(0, i as int))),
            dup@.len() == spec_conflicts(data@, batch@.subrange(0, i as int)).len(),
            dup@.len() == 0 <==> (forall|j: int|
                0 <= j < i ==> !spec_contains_key(data@, batch@[j]@.key)),
            !spec_has_intra_dup(batch@),
    {
        let ghost pre = batch@.subrange(0, i as int);
        let ghost post = batch@.subrange(0, i + 1);
        proof {
            assert(post.drop_last() =~= pre);
            assert(post.last() == batch@[i as int]);
        }
        if data_contains_key(data, batch[i].key.as_slice()) {
            let ghost dpre = dup@;
            dup.push(batch[i].duplicate());
            proof {
                let cpre = spec_conflicts(data@, pre);
                let cpost = spec_conflicts(data@, post);
                assert(cpost == cpre.push(batch@[i as int]));
                assert forall|j: int| 0 <= j < dup@.len() implies spec_views(dup@)[j]
                    == spec_views(cpost)[j] by {
                    if j < dpre.len() {
                        assert(spec_views(dpre)[j] == spec_views(cpre)[j]);
                        assert(dup@[j] == dpre[j]);
                        assert(cpost[j] == cpre[j]);
                    } else {
                        assert(dup@[j]@ == batch@[i as int]@);
                        assert(cpost[j] == batch@[i as int]);
                    }
                }
                assert(spec_views(dup@) =~= spec_views(cpost));
            }
        } else {
            proof {
                assert(spec_conflicts(data@, post) == spec_conflicts(data@, pre));
            }
        }
    }
    assert(batch@.subrange(0, n as int) =~= batch@);
    if dup.len() > 0 {
        return Err(Error::KeysExist(dup));
    }
    Ok(())
}

/// Whether any stored entry carries the given key.
fn data_contains_key(data: &Vec<Entry>, key: &[u8]) -> (r: bool)
    ensures
        r == spec_contains_key(data@, key@),
{
    let n = data.len();
    for i in 0..n
        invariant
            n == data@.len(),
            forall|j: int| 0 <= j < i ==> data@[j]@.key != key@,
    {
        if crate::entry::bytes_eq(data[i].key.as_slice(), key) {
            proof {
                assert(0 <= i < data@.len() && data@[i as int]@.key == key@);
            }
            return true;
        }
    }
    false
}

/// Methods shared by all four flavors.
impl<P: Perm, S: Copy> AppendOnlyData<P, S> {
    /// The current entry count.
    pub open spec fn spec_entries_index(&self) -> u64 {
        self.data@.len() as u64
    }

    /// The current owner-history length.
    pub open spec fn spec_owners_index(&self) -> u64 {
        self.owners@.len() as u64
    }

    /// The current permission-history length.
    pub open spec fn spec_permissions_index(&self) -> u64 {
        self.permissions@.len() as u64
    }

    /// The current entry count.
    pub fn entries_index(&self) -> (r: u64)
        ensures
            r == self.spec_entries_index(),
    {
        self.data.len() as u64
    }

    /// The current owner-history length.
    pub fn owners_index(&self) -> (r: u64)
        ensures
            r == self.spec_owners_index(),
    {
        self.owners.len() as u64
    }

    /// The current permission-history length.
    pub fn permissions_index(&self) -> (r: u64)
        ensures
            r == self.spec_permissions_index(),
    {
        self.permissions.len() as u64
    }

    /// The triple of current counts.
    pub fn indices(&self) -> (r: Indices)
        ensures
            r == (Indices {
                entries_index: self.spec_entries_index(),
                owners_index: self.spec_owners_index(),
                permissions_index: self.spec_permissions_index(),
            }),
    {
        Indices::new(self.entries_index(), self.owners_index(), self.permissions_index())
    }

    /// The address of this aggregate.
    pub fn address(&self) -> (r: &Address)
        ensures
            *r == self.address,
    {
        &self.address
    }

    /// The name of this aggregate.
    pub fn name(&self) -> (r: &XorName)
        ensures
            *r == self.address.spec_name(),
    {
        self.address.name()
    }

    /// The tag of this aggregate.
    pub fn tag(&self) -> (r: u64)
        ensures
            r == self.address.spec_tag(),
    {
        self.address.tag()
    }

    /// All stored entries.
    pub fn entries(&self) -> (r: &Entries)
        ensures
            r@ == self.data@,
    {
        &self.data
    }

    /// The value stored under `key`: the value of the first entry carrying
    /// that key, if any entry does.
    pub fn get(&self, key: &[u8]) -> (r: Option<&Vec<u8>>)
        ensures
            r is Some <==> spec_get(self.data@, key@) is Some,
            r matches Some(v) ==> Some(v@) == spec_get(self.data@, key@),
    {
        let n = self.data.len();
        assert(self.data@.subrange(0, n as int) =~= self.data@);
        for i in 0..n
            invariant
                n == self.data@.len(),
                spec_get(self.data@, key@) == spec_get(
                    self.data@.subrange(i as int, n as int),
                    key@,
                ),
        {
            if crate::entry::bytes_eq(self.data[i].key.as_slice(), key) {
                return Some(&self.data[i].value);
            }
            assert(self.data@.subrange(i as int, n as int).drop_first()
                =~= self.data@.subrange(i + 1, n as int));
        }
        assert(self.data@.subrange(n as int, n as int).len() == 0);
        None
    }

    /// The most recently appended entry, if any entry exists.
    pub fn last_entry(&self) -> (r: Option<&Entry>)
        ensures
            r is Some <==> self.data@.len() > 0,
            r matches Some(e) ==> *e == self.data@.last(),
    {
        if self.data.len() > 0 {
            Some(&self.data[self.data.len() - 1])
        } else {
            None
        }
    }

    /// The entries of the resolved half-open range, as faithful copies.
    pub fn in_range(&self, start: Index, end: Index) -> (r: Option<Entries>)
        ensures
            r is Some <==> spec_resolve_range(start, end, self.data@.len() as int) is Some,
            r matches Some(es) ==> {
                let rng = spec_resolve_range(start, end, self.data@.len() as int)->0;
                &&& es@.len() == rng.1 - rng.0
                &&& forall|i: int| 0 <= i < es@.len() ==> es@[i]@ == self.data@[rng.0 + i]@
            },
    {
        let (s, e) = match to_absolute_range(start, end, self.data.len()) {
            Some(p) => p,
            None => { return None },
        };
        let mut es: Entries = Vec::new();
        for j in s..e
            invariant
                s <= j <= e <= self.data@.len(),
                es@.len() == j - s,
                forall|i: int| 0 <= i < es@.len() ==> es@[i]@ == self.data@[s + i]@,
        {
            es.push(self.data[j].duplicate());
        }
        Some(es)
    }

    /// The permission snapshot a logical index denotes.
    pub fn permissions(&self, index: Index) -> (r: Option<&P>)
        ensures
            r is Some <==> spec_lookup_at(self.permissions@, index) is Some,
            r matches Some(p) ==> Some(*p) == spec_lookup_at(self.permissions@, index),
    {
        let i = match to_absolute_index(index, self.permissions.len()) {
            Some(i) => i,
            None => { return None },
        };
        if i < self.permissions.len() {
            Some(&self.permissions[i])
        } else {
            None
        }
    }

    /// The owner record a logical index denotes.
    pub fn owner(&self, index: Index) -> (r: Option<&Owner>)
        ensures
            r is Some <==> spec_lookup_at(self.owners@, index) is Some,
            r matches Some(o) ==> Some(*o) == spec_lookup_at(self.owners@, index),
    {
        let i = match to_absolute_index(index, self.owners.len()) {
            Some(i) => i,
            None => { return None },
        };
        if i < self.owners.len() {
            Some(&self.owners[i])
        } else {
            None
        }
    }

    /// The slice of permission snapshots a resolved range denotes.
    pub fn permissions_range(&self, start: Index, end: Index) -> (r: Option<&[P]>)
        ensures
            r is Some <==> spec_resolve_range(start, end, self.permissions@.len() as int)
                is Some,
            r matches Some(sl) ==> {
                let rng = spec_resolve_range(start, end, self.permissions@.len() as int)->0;
                sl@ == self.permissions@.subrange(rng.0, rng.1)
            },
    {
        match to_absolute_range(start, end, self.permissions.len()) {
            Some((s, e)) => Some(
                vstd::slice::slice_subrange(self.permissions.as_slice(), s, e),
            ),
            None => None,
        }
    }

    /// The slice of owner records a resolved range denotes.
    pub fn owners_range(&self, start: Index, end: Index) -> (r: Option<&[Owner]>)
        ensures
            r is Some <==> spec_resolve_range(start, end, self.owners@.len() as int) is Some,
            r matches Some(sl) ==> {
                let rng = spec_resolve_range(start, end, self.owners@.len() as int)->0;
                sl@ == self.owners@.subrange(rng.0, rng.1)
            },
    {
        match to_absolute_range(start, end, self.owners.len()) {
            Some((s, e)) => Some(vstd::slice::slice_subrange(self.owners.as_slice(), s, e)),
            None => None,
        }
    }

    /// Appends one permission snapshot. All three embedded causal counters
    /// must exactly match the current state: the snapshot's recorded entry
    /// count and owner count, and the caller's expected permission-history
    /// position. Any single mismatch rejects the whole call with the true
    /// current value and leaves the aggregate unchanged.
    pub fn append_permissions(&mut self, permissions: P, permissions_idx: u64) -> (r: Result<
        (),
        Error,
    >)
        ensures
            match r {
                Ok(()) => {
                    &&& permissions.spec_entries_index() == old(self).spec_entries_index()
                    &&& permissions.spec_owners_index() == old(self).spec_owners_index()
                    &&& permissions_idx == old(self).spec_permissions_index()
                    &&& final(self).permissions@ == old(self).permissions@.push(permissions)
                    &&& final(self).data@ == old(self).data@
                    &&& final(self).owners@ == old(self).owners@
                    &&& final(self).address == old(self).address
                },
                Err(e) => {
                    &&& *final(self) == *old(self)
                    &&& if permissions.spec_entries_index() != old(self).spec_entries_index() {
                        e == Error::InvalidSuccessor(old(self).spec_entries_index())
                    } else if permissions.spec_owners_index() != old(
                        self,
                    ).spec_owners_index() {
                        e == Error::InvalidOwnersSuccessor(old(self).spec_owners_index())
                    } else {
                        &&& permissions_idx != old(self).spec_permissions_index()
                        &&& e == Error::InvalidSuccessor(old(self).spec_permissions_index())
                    }
                },
            },
    {
        if permissions.entries_index() != self.entries_index() {
            return Err(Error::InvalidSuccessor(self.entries_index()));
        }
        if permissions.owners_index() != self.owners_index() {
            return Err(Error::InvalidOwnersSuccessor(self.owners_index()));
        }
        if self.permissions_index() != permissions_idx {
            return Err(Error::InvalidSuccessor(self.permissions_index()));
        }
        self.permissions.push(permissions);
        Ok(())
    }

    /// Appends one owner record. All three embedded causal counters must
    /// exactly match the current state: the record's recorded entry count
    /// and permission count, and the caller's expected owner-history
    /// position. Any single mismatch rejects the whole call with the true
    /// current value and leaves the aggregate unchanged.
    pub fn append_owner(&mut self, owner: Owner, index: u64) -> (r: Result<(), Error>)
        ensures
            match r {
                Ok(()) => {
                    &&& owner.entries_index == old(self).spec_entries_index()
                    &&& owner.permissions_index == old(self).spec_permissions_index()
                    &&& index == old(self).spec_owners_index()
                    &&& final(self).owners@ == old(self).owners@.push(owner)
                    &&& final(self).data@ == old(self).data@
                    &&& final(self).permissions@ == old(self).permissions@
                    &&& final(self).address == old(self).address
                },
                Err(e) => {
                    &&& *final(self) == *old(self)
                    &&& if owner.entries_index != old(self).spec_entries_index() {
                        e == Error::InvalidSuccessor(old(self).spec_entries_index())
                    } else if owner.permissions_index != old(self).spec_permissions_index() {
                        e == Error::InvalidPermissionsSuccessor(
                            old(self).spec_permissions_index(),
                        )
                    } else {
                        &&& index != old(self).spec_owners_index()
                        &&& e == Error::InvalidSuccessor(old(self).spec_owners_index())
                    }
                },
            },
    {
        if owner.entries_index != self.entries_index() {
            return Err(Error::InvalidSuccessor(self.entries_index()));
        }
        if owner.permissions_index != self.permissions_index() {
            return Err(Error::InvalidPermissionsSuccessor(self.permissions_index()));
        }
        if self.owners_index() != index {
            return Err(Error::InvalidSuccessor(self.owners_index()));
        }
        self.owners.push(owner);
        Ok(())
    }

    /// Decides whether `requester` may perform `action`: owners bypass the
    /// permission history; everyone else is judged by the latest snapshot.
    pub fn check_permission(&self, requester: PublicKey, action: Action) -> (r: Result<
        (),
        Error,
    >)
        ensures
            r == spec_check_permission(self.owners@, self.permissions@, requester, action),
    {
        if self.owners.len() == 0 {
            return Err(Error::InvalidOwners);
        }
        if self.owners[self.owners.len() - 1].public_key == requester {
            return Ok(());
        }
        if self.permissions.len() == 0 {
            return Err(Error::InvalidPermissions);
        }
        self.permissions[self.permissions.len() - 1].is_action_allowed(requester, action)
    }

    /// Decides whether `requester` is the current last owner.
    pub fn check_is_last_owner(&self, requester: PublicKey) -> (r: Result<(), Error>)
        ensures
            r == spec_check_is_last_owner(self.owners@, requester),
    {
        if self.owners.len() == 0 {
            return Err(Error::InvalidOwners);
        }
        if self.owners[self.owners.len() - 1].public_key == requester {
            Ok(())
        } else {
            Err(Error::AccessDenied)
        }
    }

    /// The shell of this aggregate as of `entries_index`: the same address,
    /// no entries, and each history restricted to exactly the records whose
    /// recorded entry count is at most the resolved target.
    pub fn shell(&self, entries_index: Index) -> (r: Result<Self, Error>)
        ensures
            match r {
                Ok(shell) => {
                    let target = spec_resolve_index(
                        entries_index,
                        self.data@.len() as int,
                    )->0 as u64;
                    &&& spec_resolve_index(entries_index, self.data@.len() as int) is Some
                    &&& shell.address == self.address
                    &&& shell.data@.len() == 0
                    &&& shell.owners@ == spec_shell_owners(self.owners@, target)
                    &&& shell.permissions@.len() == spec_shell_perms(
                        self.permissions@,
                        target,
                    ).len()
                    &&& forall|i: int|
                        0 <= i < shell.permissions@.len() ==> shell.permissions@[i].congruent(
                            &spec_shell_perms(self.permissions@, target)[i],
                        )
                },
                Err(e) => {
                    &&& e == Error::NoSuchEntry
                    &&& spec_resolve_index(entries_index, self.data@.len() as int) is None
                },
            },
    {
        let target_idx = match to_absolute_index(entries_index, self.data.len()) {
            Some(t) => t,
            None => { return Err(Error::NoSuchEntry) },
        };
        let target = target_idx as u64;

        let mut permissions: Vec<P> = Vec::new();
        let np = self.permissions.len();
        for i in 0..np
            invariant
                np == self.permissions@.len(),
                permissions@.len() == spec_shell_perms(
                    self.permissions@.subrange(0, i as int),
                    target,
                ).len(),
                forall|j: int|
                    0 <= j < permissions@.len() ==> permissions@[j].congruent(
                        &spec_shell_perms(self.permissions@.subrange(0, i as int), target)[j],
                    ),
        {
            let ghost pre = self.permissions@.subrange(0, i as int);
            let ghost post = self.permissions@.subrange(0, i + 1);
            proof {
                assert(post.drop_last() =~= pre);
                assert(post.last() == self.permissions@[i as int]);
            }
            if self.permissions[i].entries_index() <= target {
                permissions.push(self.permissions[i].duplicate());
            }
        }
        assert(self.permissions@.subrange(0, np as int) =~= self.permissions@);

        let mut owners: Vec<Owner> = Vec::new();
        let no = self.owners.len();
        for i in 0..no
            invariant
                no == self.owners@.len(),
                owners@ == spec_shell_owners(self.owners@.subrange(0, i as int), target),
        {
            let ghost pre = self.owners@.subrange(0, i as int);
            let ghost post = self.owners@.subrange(0, i + 1);
            proof {
                assert(post.drop_last() =~= pre);
                assert(post.last() == self.owners@[i as int]);
            }
            if self.owners[i].entries_index <= target {
                owners.push(self.owners[i]);
            }
        }
        assert(self.owners@.subrange(0, no as int) =~= self.owners@);

        Ok(
            AppendOnlyData {
                address: self.address,
                data: Vec::new(),
                permissions,
                owners,
                flavour: self.flavour,
            },
        )
    }
}

/// The uncounted append discipline: only the duplicate-key checks guard an
/// entry append.
impl<P: Perm> AppendOnlyData<P, Unsequenced> {
    /// Appends a batch of entries after the duplicate-key checks; on any
    /// failure the stored entries are unchanged.
    pub fn append(&mut self, entries: Entries) -> (r: Result<(), Error>)
        ensures
            match r {
                Ok(()) => {
                    &&& !spec_has_intra_dup(entries@)
                    &&& forall|i: int|
                        0 <= i < entries@.len() ==> !spec_contains_key(
                            old(self).data@,
                            entries@[i]@.key,
                        )
                    &&& final(self).data@ == old(self).data@ + entries@
                    &&& final(self).permissions@ == old(self).permissions@
                    &&& final(self).owners@ == old(self).owners@
                    &&& final(self).address == old(self).address
                },
                Err(e) => {
                    &&& *final(self) == *old(self)
                    &&& match e {
                        Error::DuplicateEntryKeys => spec_has_intra_dup(entries@),
                        Error::KeysExist(d) => {
                            &&& !spec_has_intra_dup(entries@)
                            &&& d@.len() > 0
                            &&& spec_views(d@) == spec_views(
                                spec_conflicts(old(self).data@, entries@),
                            )
                        },
                        _ => false,
                    }
                },
            },
    {
        match check_dup(&self.data, &entries) {
            Ok(()) => {
                let mut entries = entries;
                self.data.append(&mut entries);
                Ok(())
            },
            Err(e) => Err(e),
        }
    }
}

/// The counted append discipline: after the duplicate-key checks, the
/// caller's expected entry count must equal the current count.
impl<P: Perm> AppendOnlyData<P, Sequenced> {
    /// Appends a batch of entries; `last_entries_index` must equal the
    /// current entry count or the call fails with `InvalidSuccessor`
    /// carrying that count. On any failure the stored entries are
    /// unchanged.
    pub fn append(&mut self, entries: Entries, last_entries_index: u64) -> (r: Result<
        (),
        Error,
    >)
        ensures
            match r {
                Ok(()) => {
                    &&& !spec_has_intra_dup(entries@)
                    &&& forall|i: int|
                        0 <= i < entries@.len() ==> !spec_contains_key(
                            old(self).data@,
                            entries@[i]@.key,
                        )
                    &&& last_entries_index == old(self).spec_entries_index()
                    &&& final(self).data@ == old(self).data@ + entries@
                    &&& final(self).permissions@ == old(self).permissions@
                    &&& final(self).owners@ == old(self).owners@
                    &&& final(self).address == old(self).address
                },
                Err(e) => {
                    &&& *final(self) == *old(self)
                    &&& match e {
                        Error::DuplicateEntryKeys => spec_has_intra_dup(entries@),
                        Error::KeysExist(d) => {
                            &&& !spec_has_intra_dup(entries@)
                            &&& d@.len() > 0
                            &&& spec_views(d@) == spec_views(
                                spec_conflicts(old(self).data@, entries@),
                            )
                        },
                        Error::InvalidSuccessor(c) => {
                            &&& !spec_has_intra_dup(entries@)
                            &&& forall|i: int|
                                0 <= i < entries@.len() ==> !spec_contains_key(
                                    old(self).data@,
                                    entries@[i]@.key,
                                )
                            &&& last_entries_index != old(self).spec_entries_index()
                            &&& c == old(self).spec_entries_index()
                        },
                        _ => false,
                    }
                },
            },
    {
        match check_dup(&self.data, &entries) {
            Ok(()) => {
                if last_entries_index != self.entries_index() {
                    return Err(Error::InvalidSuccessor(self.entries_index()));
                }
                let mut entries = entries;
                self.data.append(&mut entries);
                Ok(())
            },
            Err(e) => Err(e),
        }
    }
}

/// Public + counted.
impl AppendOnlyData<PubPermissions, Sequenced> {
    /// Creates the empty public counted aggregate at the given name and tag.
    pub fn new(name: XorName, tag: u64) -> (r: Self)
        ensures
            r.address == (Address::PubSeq { name, tag }),
            r.data@.len() == 0,
            r.permissions@.len() == 0,
            r.owners@.len() == 0,
    {
        AppendOnlyData {
            address: Address::PubSeq { name, tag },
            data: Vec::new(),
            permissions: Vec::new(),
            owners: Vec::new(),
            flavour: Sequenced,
        }
    }
}

/// Public + uncounted.
impl AppendOnlyData<PubPermissions, Unsequenced> {
    /// Creates the empty public uncounted aggregate at the given name and
    /// tag.
    pub fn new(name: XorName, tag: u64) -> (r: Self)
        ensures
            r.address == (Address::PubUnseq { name, tag }),
            r.data@.len() == 0,
            r.permissions@.len() == 0,
            r.owners@.len() == 0,
    {
        AppendOnlyData {
            address: Address::PubUnseq { name, tag },
            data: Vec::new(),
            permissions: Vec::new(),
            owners: Vec::new(),
            flavour: Unsequenced,
        }
    }
}

/// Private + counted.
impl AppendOnlyData<UnpubPermissions, Sequenced> {
    /// Creates the empty private counted aggregate at the given name and
    /// tag.
    pub fn new(name: XorName, tag: u64) -> (r: Self)
        ensures
            r.address == (Address::UnpubSeq { name, tag }),
            r.data@.len() == 0,
            r.permissions@.len() == 0,
            r.owners@.len() == 0,
    {
        AppendOnlyData {
            address: Address::UnpubSeq { name, tag },
            data: Vec::new(),
            permissions: Vec::new(),
            owners: Vec::new(),
            flavour: Sequenced,
        }
    }
}

/// Private + uncounted.
impl AppendOnlyData<UnpubPermissions, Unsequenced> {
    /// Creates the empty private uncounted aggregate at the given name and
    /// tag.
    pub fn new(name: XorName, tag: u64) -> (r: Self)
        ensures
            r.address == (Address::UnpubUnseq { name, tag }),
            r.data@.len() == 0,
            r.permissions@.len() == 0,
            r.owners@.len() == 0,
    {
        AppendOnlyData {
            address: Address::UnpubUnseq { name, tag },
            data: Vec::new(),
            permissions: Vec::new(),
            owners: Vec::new(),
            flavour: Unsequenced,
        }
    }
}

impl<P: Perm, S: Copy> Clone for AppendOnlyData<P, S> {
    /// A faithful copy: same address, same owner records, and entries and
    /// permission snapshots structurally identical to the originals.
    fn clone(&self) -> (r: Self)
        ensures
            r.address == self.address,
            r.data@.len() == self.data@.len(),
            forall|i: int| 0 <= i < self.data@.len() ==> r.data@[i]@ == self.data@[i]@,
            r.permissions@.len() == self.permissions@.len(),
            forall|i: int|
                0 <= i < self.permissions@.len() ==> r.permissions@[i].congruent(
                    &self.permissions@[i],
                ),
            r.owners@ == self.owners@,
    {
        let mut data: Entries = Vec::new();
        let nd = self.data.len();
        for i in 0..nd
            invariant
                nd == self.data@.len(),
                data@.len() == i,
                forall|j: int| 0 <= j < i ==> data@[j]@ == self.data@[j]@,
        {
            data.push(self.data[i].duplicate());
        }
        let mut permissions: Vec<P> = Vec::new();
        let np = self.permissions.len();
        for i in 0..np
            invariant
                np == self.permissions@.len(),
                permissions@.len() == i,
                forall|j: int|
                    0 <= j < i ==> permissions@[j].congruent(&self.permissions@[j]),
        {
            permissions.push(self.permissions[i].duplicate());
        }
        let mut owners: Vec<Owner> = Vec::new();
        let no = self.owners.len();
        for i in 0..no
            invariant
                no == self.owners@.len(),
                owners@ == self.owners@.subrange(0, i as int),
        {
            owners.push(self.owners[i]);
            assert(owners@ =~= self.owners@.subrange(0, i + 1));
        }
        assert(owners@ =~= self.owners@);
        AppendOnlyData { address: self.address, data, permissions, owners, flavour: self.flavour }
    }
}

/// Law: whenever the requester is the current last owner, every action is
/// allowed, whatever the permission history holds.
pub proof fn lemma_owner_bypasses_permissions<P: Perm>(
    owners: Seq<Owner>,
    permissions: Seq<P>,
    requester: PublicKey,
    action: Action,
)
    requires
        owners.len() > 0,
        owners.last().public_key == requester,
    ensures
        spec_check_permission(owners, permissions, requester, action) == Ok::<(), Error>(()),
{
}

} // verus!
