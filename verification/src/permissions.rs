//! The permission model and access evaluator. A permission history entry is
//! a principal-to-permission-set mapping plus the causal anchor (entry count
//! and owner count) recorded when it was appended. Two policy variants
//! exist: the private one stores three explicit booleans per identified
//! principal; the public one stores optional booleans for append and
//! manage-permissions (read is implicitly always allowed) and additionally
//! admits a wildcard "anyone" principal that identified principals without
//! an explicit value fall back to.

use vstd::prelude::*;

use crate::errors::Error;
use crate::types::PublicKey;

verus! {

/// An operation a principal may request of an aggregate.
#[derive(Clone, Copy, PartialEq, Eq, Debug)]
pub enum Action {
    Read,
    Append,
    ManagePermissions,
}

/// A principal as named by a public-flavor permission map: a concrete
/// identified key, or the wildcard that covers everyone.
#[derive(Copy, Clone, PartialEq, Eq, Structural, PartialOrd, Ord, Hash, Debug)]
pub enum User {
    Anyone,
    Key(PublicKey),
}

/// The private-flavor permission set: one explicit boolean per action.
#[derive(Copy, Clone, PartialEq, Eq, Structural, PartialOrd, Ord, Hash, Debug)]
pub struct UnpubPermissionSet {
    pub read: bool,
    pub append: bool,
    pub manage_permissions: bool,
}

impl UnpubPermissionSet {
    /// Builds a set from its three booleans.
    pub fn new(read: bool, append: bool, manage_perms: bool) -> (r: Self)
        ensures
            r == (UnpubPermissionSet { read, append, manage_permissions: manage_perms }),
    {
        UnpubPermissionSet { read, append, manage_permissions: manage_perms }
    }

    /// Replaces all three booleans.
    pub fn set_perms(&mut self, read: bool, append: bool, manage_perms: bool)
        ensures
            *final(self) == (UnpubPermissionSet { read, append, manage_permissions: manage_perms }),
    {
        self.read = read;
        self.append = append;
        self.manage_permissions = manage_perms;
    }

    /// Whether this set grants `action`.
    pub open spec fn spec_is_allowed(self, action: Action) -> bool {
        match action {
            Action::Read => self.read,
            Action::Append => self.append,
            Action::ManagePermissions => self.manage_permissions,
        }
    }

    /// Whether this set grants `action`.
    pub fn is_allowed(self, action: Action) -> (r: bool)
        ensures
            r == self.spec_is_allowed(action),
    {
        match action {
            Action::Read => self.read,
            Action::Append => self.append,
            Action::ManagePermissions => self.manage_permissions,
        }
    }
}

/// The public-flavor permission set: read is implicitly always granted and
/// not stored; append and manage-permissions are each an optional boolean,
/// where absence means "defer to the wildcard".
#[derive(Copy, Clone, PartialEq, Eq, PartialOrd, Ord, Hash, Debug)]
pub struct PubPermissionSet {
    pub append: Option<bool>,
    pub manage_permissions: Option<bool>,
}

impl PubPermissionSet {
    /// Builds a set from its two optional booleans.
    pub fn new(append: Option<bool>, manage_perms: Option<bool>) -> (r: Self)
        ensures
            r == (PubPermissionSet { append, manage_permissions: manage_perms }),
    {
        PubPermissionSet { append, manage_permissions: manage_perms }
    }

    /// Replaces both optional booleans.
    pub fn set_perms(&mut self, append: Option<bool>, manage_perms: Option<bool>)
        ensures
            *final(self) == (PubPermissionSet { append, manage_permissions: manage_perms }),
    {
        self.append = append;
        self.manage_permissions = manage_perms;
    }

    /// The explicit value this set holds for `action`: reads are always
    /// granted; otherwise the stored optional value, absence meaning defer.
    pub open spec fn spec_is_allowed(self, action: Action) -> Option<bool> {
        match action {
            Action::Read => Some(true),
            Action::Append => self.append,
            Action::ManagePermissions => self.manage_permissions,
        }
    }

    /// The explicit value this set holds for `action`.
    pub fn is_allowed(self, action: Action) -> (r: Option<bool>)
        ensures
            r == self.spec_is_allowed(action),
    {
        match action {
            Action::Read => Some(true),
            Action::Append => self.append,
            Action::ManagePermissions => self.manage_permissions,
        }
    }
}

/// The permission set recorded for `k`: the first pair carrying that key,
/// if any pair does.
pub open spec fn spec_lookup_unpub(
    s: Seq<(PublicKey, UnpubPermissionSet)>,
    k: PublicKey,
) -> Option<UnpubPermissionSet>
    decreases s.len(),
{
    if s.len() == 0 {
        None
    } else if s[0].0 == k {
        Some(s[0].1)
    } else {
        spec_lookup_unpub(s.drop_first(), k)
    }
}

/// The permission set recorded for `u`: the first pair carrying that user,
/// if any pair does.
pub open spec fn spec_lookup_pub(
    s: Seq<(User, PubPermissionSet)>,
    u: User,
) -> Option<PubPermissionSet>
    decreases s.len(),
{
    if s.len() == 0 {
        None
    } else if s[0].0 == u {
        Some(s[0].1)
    } else {
        spec_lookup_pub(s.drop_first(), u)
    }
}

/// Finds the permission set recorded for `k`.
pub fn lookup_unpub(
    s: &Vec<(PublicKey, UnpubPermissionSet)>,
    k: PublicKey,
) -> (r: Option<UnpubPermissionSet>)
    ensures
        r == spec_lookup_unpub(s@, k),
{
    let n = s.len();
    assert(s@.subrange(0, n as int) =~= s@);
    for i in 0..n
        invariant
            n == s@.len(),
            spec_lookup_unpub(s@, k) == spec_lookup_unpub(s@.subrange(i as int, n as int), k),
    {
        if s[i].0 == k {
            return Some(s[i].1);
        }
        assert(s@.subrange(i as int, n as int).drop_first()
            =~= s@.subrange(i + 1, n as int));
    }
    assert(s@.subrange(n as int, n as int).len() == 0);
    None
}

/// Finds the permission set recorded for `u`.
pub fn lookup_pub(s: &Vec<(User, PubPermissionSet)>, u: User) -> (r: Option<PubPermissionSet>)
    ensures
        r == spec_lookup_pub(s@, u),
{
    let n = s.len();
    assert(s@.subrange(0, n as int) =~= s@);
    for i in 0..n
        invariant
            n == s@.len(),
            spec_lookup_pub(s@, u) == spec_lookup_pub(s@.subrange(i as int, n as int), u),
    {
        if s[i].0 == u {
            return Some(s[i].1);
        }
        assert(s@.subrange(i as int, n as int).drop_first()
            =~= s@.subrange(i + 1, n as int));
    }
    assert(s@.subrange(n as int, n as int).len() == 0);
    None
}

/// One snapshot of the permission history, shared by both flavors: the
/// decision on a requested action, the causal anchors recorded at append
/// time, and exact duplication for snapshot reconstruction.
pub trait Perm: Sized {
    /// The entry count recorded when this snapshot was appended.
    spec fn spec_entries_index(&self) -> u64;

    /// The owner count recorded when this snapshot was appended.
    spec fn spec_owners_index(&self) -> u64;

    /// The decision this snapshot gives on `requester` performing `action`.
    spec fn spec_is_action_allowed(&self, requester: PublicKey, action: Action) -> Result<
        (),
        Error,
    >;

    /// Full structural sameness of two snapshots.
    spec fn congruent(&self, other: &Self) -> bool;

    /// Congruent snapshots agree on every observation.
    proof fn lemma_congruent_observations(&self, other: &Self)
        requires
            self.congruent(other),
        ensures
            self.spec_entries_index() == other.spec_entries_index(),
            self.spec_owners_index() == other.spec_owners_index(),
            forall|pk: PublicKey, a: Action| #[trigger] self.spec_is_action_allowed(pk, a)
                == other.spec_is_action_allowed(pk, a),
    ;

    /// The entry count recorded when this snapshot was appended.
    fn entries_index(&self) -> (r: u64)
        ensures
            r == self.spec_entries_index(),
    ;

    /// The owner count recorded when this snapshot was appended.
    fn owners_index(&self) -> (r: u64)
        ensures
            r == self.spec_owners_index(),
    ;

    /// Decides whether `requester` may perform `action` under this snapshot.
    fn is_action_allowed(&self, requester: PublicKey, action: Action) -> (r: Result<(), Error>)
        ensures
            r == self.spec_is_action_allowed(requester, action),
    ;

    /// Produces a structurally identical copy of this snapshot.
    fn duplicate(&self) -> (r: Self)
        ensures
            r.congruent(self),
    ;
}

/// A private-flavor permission history entry: explicit permission sets for
/// identified principals only, plus the causal anchor.
#[derive(PartialEq, Eq, PartialOrd, Ord, Hash, Debug)]
pub struct UnpubPermissions {
    pub permissions: Vec<(PublicKey, UnpubPermissionSet)>,
    /// The entry count of the aggregate when this snapshot was appended.
    pub entries_index: u64,
    /// The owner count of the aggregate when this snapshot was appended.
    pub owners_index: u64,
}

impl UnpubPermissions {
    /// The stored principal-to-permission-set pairs.
    pub fn permissions(&self) -> (r: &Vec<(PublicKey, UnpubPermissionSet)>)
        ensures
            r@ == self.permissions@,
    {
        &self.permissions
    }
}

impl Clone for UnpubPermissions {
    /// An exact copy: same pairs, same anchors.
    fn clone(&self) -> (r: Self)
        ensures
            r.congruent(self),
    {
        self.duplicate()
    }
}

impl Perm for UnpubPermissions {
    open spec fn spec_entries_index(&self) -> u64 {
        self.entries_index
    }

    open spec fn spec_owners_index(&self) -> u64 {
        self.owners_index
    }

    /// Private policy: an absent principal is unconfigured; a present one is
    /// allowed exactly when its boolean for the action is set.
    open spec fn spec_is_action_allowed(&self, requester: PublicKey, action: Action) -> Result<
        (),
        Error,
    > {
        match spec_lookup_unpub(self.permissions@, requester) {
            Some(ps) => if ps.spec_is_allowed(action) {
                Ok(())
            } else {
                Err(Error::AccessDenied)
            },
            None => Err(Error::InvalidPermissions),
        }
    }

    open spec fn congruent(&self, other: &Self) -> bool {
        &&& self.permissions@ == other.permissions@
        &&& self.entries_index == other.entries_index
        &&& self.owners_index == other.owners_index
    }

    proof fn lemma_congruent_observations(&self, other: &Self) {
    }

    fn entries_index(&self) -> (r: u64) {
        self.entries_index
    }

    fn owners_index(&self) -> (r: u64) {
        self.owners_index
    }

    fn is_action_allowed(&self, requester: PublicKey, action: Action) -> (r: Result<(), Error>) {
        match lookup_unpub(&self.permissions, requester) {
            Some(perms) => if perms.is_allowed(action) {
                Ok(())
            } else {
                Err(Error::AccessDenied)
            },
            None => Err(Error::InvalidPermissions),
        }
    }

    fn duplicate(&self) -> (r: Self) {
        let mut pairs: Vec<(PublicKey, UnpubPermissionSet)> = Vec::new();
        let n = self.permissions.len();
        for i in 0..n
            invariant
                n == self.permissions@.len(),
                pairs@ == self.permissions@.subrange(0, i as int),
        {
            pairs.push(self.permissions[i]);
            assert(pairs@ =~= self.permissions@.subrange(0, i + 1));
        }
        assert(pairs@ =~= self.permissions@);
        UnpubPermissions {
            permissions: pairs,
            entries_index: self.entries_index,
            owners_index: self.owners_index,
        }
    }
}

/// A public-flavor permission history entry: permission sets for identified
/// principals plus the wildcard "anyone", and the causal anchor.
#[derive(PartialEq, Eq, PartialOrd, Ord, Hash, Debug)]
pub struct PubPermissions {
    pub permissions: Vec<(User, PubPermissionSet)>,
    /// The entry count of the aggregate when this snapshot was appended.
    pub entries_index: u64,
    /// The owner count of the aggregate when this snapshot was appended.
    pub owners_index: u64,
}

/// The explicit value `user` holds for `action` in `perms`, if both the
/// user's entry and its value for the action are present.
pub open spec fn spec_allowed_by_user(
    perms: Seq<(User, PubPermissionSet)>,
    user: User,
    action: Action,
) -> Option<bool> {
    match spec_lookup_pub(perms, user) {
        Some(ps) => ps.spec_is_allowed(action),
        None => None,
    }
}

impl PubPermissions {
    /// The stored user-to-permission-set pairs.
    pub fn permissions(&self) -> (r: &Vec<(User, PubPermissionSet)>)
        ensures
            r@ == self.permissions@,
    {
        &self.permissions
    }

    fn is_action_allowed_by_user(&self, user: User, action: Action) -> (r: Option<bool>)
        ensures
            r == spec_allowed_by_user(self.permissions@, user, action),
    {
        match lookup_pub(&self.permissions, user) {
            Some(perms) => perms.is_allowed(action),
            None => None,
        }
    }
}

impl Clone for PubPermissions {
    /// An exact copy: same pairs, same anchors.
    fn clone(&self) -> (r: Self)
        ensures
            r.congruent(self),
    {
        self.duplicate()
    }
}

impl Perm for PubPermissions {
    open spec fn spec_entries_index(&self) -> u64 {
        self.entries_index
    }

    open spec fn spec_owners_index(&self) -> u64 {
        self.owners_index
    }

    /// Public policy: the principal's own explicit value decides first; an
    /// absent or unset value falls through to the wildcard's value; if
    /// neither resolves, the principal is unconfigured. Reads always carry
    /// the explicit value `true`.
    open spec fn spec_is_action_allowed(&self, requester: PublicKey, action: Action) -> Result<
        (),
        Error,
    > {
        let specific = spec_allowed_by_user(self.permissions@, User::Key(requester), action);
        let effective = if specific is Some {
            specific
        } else {
            spec_allowed_by_user(self.permissions@, User::Anyone, action)
        };
        match effective {
            Some(true) => Ok(()),
            Some(false) => Err(Error::AccessDenied),
            None => Err(Error::InvalidPermissions),
        }
    }

    open spec fn congruent(&self, other: &Self) -> bool {
        &&& self.permissions@ == other.permissions@
        &&& self.entries_index == other.entries_index
        &&& self.owners_index == other.owners_index
    }

    proof fn lemma_congruent_observations(&self, other: &Self) {
    }

    fn entries_index(&self) -> (r: u64) {
        self.entries_index
    }

    fn owners_index(&self) -> (r: u64) {
        self.owners_index
    }

    fn is_action_allowed(&self, requester: PublicKey, action: Action) -> (r: Result<(), Error>) {
        let specific = self.is_action_allowed_by_user(User::Key(requester), action);
        let effective = match specific {
            Some(b) => Some(b),
            None => self.is_action_allowed_by_user(User::Anyone, action),
        };
        match effective {
            Some(true) => Ok(()),
            Some(false) => Err(Error::AccessDenied),
            None => Err(Error::InvalidPermissions),
        }
    }

    fn duplicate(&self) -> (r: Self) {
        let mut pairs: Vec<(User, PubPermissionSet)> = Vec::new();
        let n = self.permissions.len();
        for i in 0..n
            invariant
                n == self.permissions@.len(),
                pairs@ == self.permissions@.subrange(0, i as int),
        {
            pairs.push(self.permissions[i]);
            assert(pairs@ =~= self.permissions@.subrange(0, i + 1));
        }
        assert(pairs@ =~= self.permissions@);
        PubPermissions {
            permissions: pairs,
            entries_index: self.entries_index,
            owners_index: self.owners_index,
        }
    }
}

/// A permission history entry of either flavor.
#[derive(Clone, PartialEq, Eq, PartialOrd, Ord, Hash, Debug)]
pub enum Permissions {
    Pub(PubPermissions),
    Unpub(UnpubPermissions),
}

impl From<UnpubPermissions> for Permissions {
    fn from(permissions: UnpubPermissions) -> (r: Self) {
        Permissions::Unpub(permissions)
    }
}

impl vstd::std_specs::convert::FromSpecImpl<UnpubPermissions> for Permissions {
    open spec fn obeys_from_spec() -> bool {
        true
    }

    open spec fn from_spec(permissions: UnpubPermissions) -> Self {
        Permissions::Unpub(permissions)
    }
}

impl From<PubPermissions> for Permissions {
    fn from(permissions: PubPermissions) -> (r: Self) {
        Permissions::Pub(permissions)
    }
}

impl vstd::std_specs::convert::FromSpecImpl<PubPermissions> for Permissions {
    open spec fn obeys_from_spec() -> bool {
        true
    }

    open spec fn from_spec(permissions: PubPermissions) -> Self {
        Permissions::Pub(permissions)
    }
}

/// Law: in the public flavor, a principal-specific explicit `false` denies
/// the action even when the wildcard holds an explicit `true`.
pub proof fn lemma_pub_explicit_false_overrides_wildcard(
    perms: PubPermissions,
    pk: PublicKey,
    action: Action,
)
    requires
        spec_allowed_by_user(perms.permissions@, User::Key(pk), action) == Some(false),
        spec_allowed_by_user(perms.permissions@, User::Anyone, action) == Some(true),
    ensures
        perms.spec_is_action_allowed(pk, action) == Err::<(), Error>(Error::AccessDenied),
{
}

/// Law: in the public flavor, a principal with no explicit value for the
/// action is decided exactly by the wildcard's value: allowed on `true`,
/// denied on `false`, unconfigured when the wildcard has no value either.
pub proof fn lemma_pub_unset_falls_through_to_wildcard(
    perms: PubPermissions,
    pk: PublicKey,
    action: Action,
)
    requires
        spec_allowed_by_user(perms.permissions@, User::Key(pk), action) is None,
    ensures
        perms.spec_is_action_allowed(pk, action) == (match spec_allowed_by_user(
            perms.permissions@,
            User::Anyone,
            action,
        ) {
            Some(true) => Ok(()),
            Some(false) => Err(Error::AccessDenied),
            None => Err::<(), Error>(Error::InvalidPermissions),
        }),
{
}

} // verus!
