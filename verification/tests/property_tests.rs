//! Concrete checks of the library's stated laws: index resolution, causal
//! anchoring with exact successor errors, the owner bypass, the public
//! wildcard precedence rules, shell prefixes, and the address codec.

use append_only_data::index::{to_absolute_index, to_absolute_range};
use append_only_data::Permissions;
use append_only_data::{
    Action, Address, AppendOperation, Data, Entry, Error, Index, Indices, Kind, Owner,
    PubPermissionSet, PubPermissions, PubSeqAppendOnlyData, PublicKey, UnpubPermissionSet,
    UnpubPermissions, UnpubSeqAppendOnlyData, UnpubUnseqAppendOnlyData, User, XorName,
};

fn key(n: u64) -> PublicKey {
    PublicKey::new(n, 1, 2, 3)
}

#[test]
fn index_resolution_concrete() {
    // FromStart(i) resolves to i for i <= count; FromEnd(i) to count - i.
    assert_eq!(to_absolute_index(Index::FromStart(0), 5), Some(0));
    assert_eq!(to_absolute_index(Index::FromStart(5), 5), Some(5));
    assert_eq!(to_absolute_index(Index::FromStart(6), 5), None);
    assert_eq!(to_absolute_index(Index::FromEnd(0), 5), Some(5));
    assert_eq!(to_absolute_index(Index::FromEnd(1), 5), Some(4));
    assert_eq!(to_absolute_index(Index::FromEnd(5), 5), Some(0));
    assert_eq!(to_absolute_index(Index::FromEnd(6), 5), None);
    // Ranges: both ends must resolve and start <= end.
    assert_eq!(
        to_absolute_range(Index::FromStart(1), Index::FromEnd(1), 5),
        Some((1, 4))
    );
    assert_eq!(to_absolute_range(Index::FromEnd(1), Index::FromEnd(2), 5), None);
}

#[test]
fn from_u64_is_from_start() {
    let i: Index = 7u64.into();
    assert_eq!(i, Index::FromStart(7));
}

#[test]
fn indices_triple() {
    let ix = Indices::new(3, 1, 2);
    assert_eq!(ix.entries_index(), 3);
    assert_eq!(ix.owners_index(), 1);
    assert_eq!(ix.permissions_index(), 2);

    let mut data = UnpubSeqAppendOnlyData::new(XorName([9; 32]), 5);
    data.append(vec![Entry::new(b"k".to_vec(), b"v".to_vec())], 0)
        .unwrap();
    assert_eq!(data.indices(), Indices::new(1, 0, 0));
    assert_eq!(data.entries_index(), 1);
    assert_eq!(data.owners_index(), 0);
    assert_eq!(data.permissions_index(), 0);
}

#[test]
fn permission_append_rejects_each_mismatch() {
    // An empty private counted aggregate with tag 10000: the in-anchor
    // append succeeds; a wrong entry anchor fails with the true count.
    let mut data = UnpubSeqAppendOnlyData::new(XorName([1; 32]), 10000);
    assert_eq!(
        data.append_permissions(
            UnpubPermissions { permissions: Vec::new(), entries_index: 0, owners_index: 0 },
            0
        ),
        Ok(())
    );
    assert_eq!(
        data.append_permissions(
            UnpubPermissions { permissions: Vec::new(), entries_index: 64, owners_index: 0 },
            1
        ),
        Err(Error::InvalidSuccessor(0))
    );
    assert_eq!(data.permissions_index(), 1);

    // A wrong owner anchor fails with the owner count.
    assert_eq!(
        data.append_permissions(
            UnpubPermissions { permissions: Vec::new(), entries_index: 0, owners_index: 9 },
            1
        ),
        Err(Error::InvalidOwnersSuccessor(0))
    );
    // A wrong expected position fails with the history length.
    assert_eq!(
        data.append_permissions(
            UnpubPermissions { permissions: Vec::new(), entries_index: 0, owners_index: 0 },
            0
        ),
        Err(Error::InvalidSuccessor(1))
    );
    assert_eq!(data.permissions_index(), 1);
}

#[test]
fn owner_append_rejects_each_mismatch() {
    let mut data = UnpubSeqAppendOnlyData::new(XorName([1; 32]), 10000);
    let pk = key(1);
    assert_eq!(
        data.append_owner(Owner { public_key: pk, entries_index: 3, permissions_index: 0 }, 0),
        Err(Error::InvalidSuccessor(0))
    );
    assert_eq!(
        data.append_owner(Owner { public_key: pk, entries_index: 0, permissions_index: 4 }, 0),
        Err(Error::InvalidPermissionsSuccessor(0))
    );
    assert_eq!(
        data.append_owner(Owner { public_key: pk, entries_index: 0, permissions_index: 0 }, 5),
        Err(Error::InvalidSuccessor(0))
    );
    assert_eq!(data.owners_index(), 0);
    assert_eq!(
        data.append_owner(Owner { public_key: pk, entries_index: 0, permissions_index: 0 }, 0),
        Ok(())
    );
    assert_eq!(data.owners_index(), 1);
}

#[test]
fn counted_append_rejects_wrong_count() {
    let mut data = UnpubSeqAppendOnlyData::new(XorName([8; 32]), 10);
    let entries = vec![Entry::new(b"a".to_vec(), b"1".to_vec())];
    assert_eq!(
        data.append(entries.clone(), 3),
        Err(Error::InvalidSuccessor(0))
    );
    assert_eq!(data.entries_index(), 0);
    assert_eq!(data.append(entries, 0), Ok(()));
    assert_eq!(data.entries_index(), 1);
}

#[test]
fn owner_bypasses_acl() {
    // The last owner is allowed every action even with a deny-all snapshot.
    let pk = key(30);
    let mut inner = UnpubSeqAppendOnlyData::new(XorName([1; 32]), 100);
    inner
        .append_owner(Owner { public_key: pk, entries_index: 0, permissions_index: 0 }, 0)
        .unwrap();
    let mut perms = UnpubPermissions {
        permissions: Vec::new(),
        entries_index: 0,
        owners_index: 1,
    };
    perms
        .permissions
        .push((pk, UnpubPermissionSet::new(false, false, false)));
    inner.append_permissions(perms, 0).unwrap();
    let data = Data::from(inner);
    assert_eq!(data.check_permission(Action::Read, pk), Ok(()));
    assert_eq!(data.check_permission(Action::Append, pk), Ok(()));
    assert_eq!(data.check_permission(Action::ManagePermissions, pk), Ok(()));
    assert_eq!(data.check_is_last_owner(pk), Ok(()));
    assert_eq!(data.check_is_last_owner(key(31)), Err(Error::AccessDenied));
}

#[test]
fn pub_explicit_false_overrides_wildcard_true() {
    let owner = key(40);
    let denied = key(41);
    let mut inner = PubSeqAppendOnlyData::new(XorName([1; 32]), 100);
    inner
        .append_owner(Owner { public_key: owner, entries_index: 0, permissions_index: 0 }, 0)
        .unwrap();
    let mut perms = PubPermissions {
        permissions: Vec::new(),
        entries_index: 0,
        owners_index: 1,
    };
    // Wildcard allows appends; the principal's explicit false must win.
    perms
        .permissions
        .push((User::Anyone, PubPermissionSet::new(Some(true), None)));
    perms.permissions.push((
        User::Key(denied),
        PubPermissionSet::new(Some(false), None),
    ));
    inner.append_permissions(perms, 0).unwrap();
    let data = Data::from(inner);
    assert_eq!(
        data.check_permission(Action::Append, denied),
        Err(Error::AccessDenied)
    );
    // An unset principal-specific value falls through to the wildcard.
    assert_eq!(data.check_permission(Action::Append, key(42)), Ok(()));
    // Neither resolves: unconfigured.
    assert_eq!(
        data.check_permission(Action::ManagePermissions, key(42)),
        Err(Error::InvalidPermissions)
    );
}

#[test]
fn shell_holds_history_prefixes() {
    let pk = key(50);
    let mut data = UnpubUnseqAppendOnlyData::new(XorName([1; 32]), 7);
    data.append_owner(Owner { public_key: pk, entries_index: 0, permissions_index: 0 }, 0)
        .unwrap();
    data.append(vec![Entry::new(b"k1".to_vec(), b"v1".to_vec())])
        .unwrap();
    data.append_permissions(
        UnpubPermissions { permissions: Vec::new(), entries_index: 1, owners_index: 1 },
        0,
    )
    .unwrap();
    data.append(vec![Entry::new(b"k2".to_vec(), b"v2".to_vec())])
        .unwrap();
    data.append_owner(Owner { public_key: pk, entries_index: 2, permissions_index: 1 }, 1)
        .unwrap();

    // As of entry count 0: only the first owner record survives.
    let shell0 = data.shell(Index::FromStart(0)).unwrap();
    assert_eq!(shell0.entries_index(), 0);
    assert_eq!(shell0.owners_index(), 1);
    assert_eq!(shell0.permissions_index(), 0);
    assert_eq!(shell0.address(), data.address());

    // As of entry count 1: the permission snapshot is back in.
    let shell1 = data.shell(Index::FromStart(1)).unwrap();
    assert_eq!(shell1.entries_index(), 0);
    assert_eq!(shell1.owners_index(), 1);
    assert_eq!(shell1.permissions_index(), 1);

    // The present: both owner records, one snapshot, still no entries.
    let shell2 = data.shell(Index::FromEnd(0)).unwrap();
    assert_eq!(shell2.entries_index(), 0);
    assert_eq!(shell2.owners_index(), 2);
    assert_eq!(shell2.permissions_index(), 1);

    // An unresolvable target is rejected.
    assert_eq!(data.shell(Index::FromStart(3)).unwrap_err(), Error::NoSuchEntry);
}

#[test]
fn data_shell_forwards() {
    let data = Data::from(PubSeqAppendOnlyData::new(XorName([1; 32]), 3));
    let shell = data.shell(Index::FromEnd(0)).unwrap();
    assert_eq!(shell.entries_index(), 0);
    assert_eq!(shell.kind(), Kind::PubSeq);
    assert_eq!(data.shell(Index::FromStart(1)).unwrap_err(), Error::NoSuchEntry);
}

#[test]
fn get_and_last_entry() {
    let mut data = UnpubUnseqAppendOnlyData::new(XorName([1; 32]), 7);
    assert_eq!(data.get(b"k1"), None);
    assert_eq!(data.last_entry(), None);
    data.append(vec![
        Entry::new(b"k1".to_vec(), b"v1".to_vec()),
        Entry::new(b"k2".to_vec(), b"v2".to_vec()),
    ])
    .unwrap();
    assert_eq!(data.get(b"k1"), Some(&b"v1".to_vec()));
    assert_eq!(data.get(b"k2"), Some(&b"v2".to_vec()));
    assert_eq!(data.get(b"k3"), None);
    assert_eq!(
        data.last_entry(),
        Some(&Entry::new(b"k2".to_vec(), b"v2".to_vec()))
    );
    assert_eq!(data.entries().len(), 2);

    let data = Data::from(data);
    assert_eq!(data.get(b"k2"), Some(&b"v2".to_vec()));
    assert_eq!(
        data.last_entry(),
        Some(&Entry::new(b"k2".to_vec(), b"v2".to_vec()))
    );
    assert_eq!(
        data.in_range(Index::FromStart(0), Index::FromStart(1)),
        Some(vec![Entry::new(b"k1".to_vec(), b"v1".to_vec())])
    );
    assert_eq!(data.indices(), Indices::new(2, 0, 0));
    assert_eq!(data.entries_index(), 2);
    assert_eq!(data.owner(Index::FromEnd(1)), None);
    assert_eq!(
        data.check_is_last_owner(key(1)),
        Err(Error::InvalidOwners)
    );
}

#[test]
fn permission_set_values() {
    let mut ps = UnpubPermissionSet::new(true, false, true);
    assert!(ps.is_allowed(Action::Read));
    assert!(!ps.is_allowed(Action::Append));
    assert!(ps.is_allowed(Action::ManagePermissions));
    ps.set_perms(false, true, false);
    assert!(!ps.is_allowed(Action::Read));
    assert!(ps.is_allowed(Action::Append));
    assert!(!ps.is_allowed(Action::ManagePermissions));

    let mut pp = PubPermissionSet::new(Some(false), None);
    assert_eq!(pp.is_allowed(Action::Read), Some(true));
    assert_eq!(pp.is_allowed(Action::Append), Some(false));
    assert_eq!(pp.is_allowed(Action::ManagePermissions), None);
    pp.set_perms(None, Some(true));
    assert_eq!(pp.is_allowed(Action::Append), None);
    assert_eq!(pp.is_allowed(Action::ManagePermissions), Some(true));
}

#[test]
fn address_and_kind_predicates() {
    let name = XorName([13; 32]);
    assert!(Kind::PubSeq.is_pub() && Kind::PubSeq.is_seq());
    assert!(Kind::PubUnseq.is_pub() && Kind::PubUnseq.is_unseq());
    assert!(Kind::UnpubSeq.is_unpub() && Kind::UnpubSeq.is_seq());
    assert!(Kind::UnpubUnseq.is_unpub() && Kind::UnpubUnseq.is_unseq());

    let a = Address::from_kind(Kind::PubUnseq, name, 42);
    assert_eq!(a, Address::PubUnseq { name, tag: 42 });
    assert_eq!(a.kind(), Kind::PubUnseq);
    assert_eq!(*a.name(), name);
    assert_eq!(a.tag(), 42);
    assert!(a.is_pub() && !a.is_unpub() && a.is_unseq() && !a.is_seq());

    let d = Data::from(UnpubUnseqAppendOnlyData::new(name, 42));
    assert_eq!(d.kind(), Kind::UnpubUnseq);
    assert_eq!(*d.name(), name);
    assert_eq!(d.tag(), 42);
    assert!(d.is_unpub() && !d.is_pub() && d.is_unseq() && !d.is_seq());
    assert_eq!(*d.address(), Address::UnpubUnseq { name, tag: 42 });
}

#[test]
fn all_four_flavors_round_trip_the_codec() {
    let name = XorName([200; 32]);
    for kind in [Kind::PubSeq, Kind::PubUnseq, Kind::UnpubSeq, Kind::UnpubUnseq] {
        let address = Address::from_kind(kind, name, u64::MAX - 3);
        let encoded = address.encode_to_zbase32();
        assert_eq!(Address::decode_from_zbase32(&encoded), Ok(address));
    }
}

#[test]
fn decode_rejects_garbage() {
    assert_eq!(
        Address::decode_from_zbase32("not a multibase string"),
        Err(Error::FailedToParse)
    );
    assert_eq!(Address::decode_from_zbase32(""), Err(Error::FailedToParse));
}

#[test]
fn keys_exist_carries_offenders_only() {
    let mut data = UnpubUnseqAppendOnlyData::new(XorName([1; 32]), 1);
    data.append(vec![
        Entry::new(b"a".to_vec(), b"1".to_vec()),
        Entry::new(b"b".to_vec(), b"2".to_vec()),
    ])
    .unwrap();
    // Of a mixed batch, exactly the colliding entries come back, in order.
    let err = data
        .append(vec![
            Entry::new(b"b".to_vec(), b"9".to_vec()),
            Entry::new(b"c".to_vec(), b"3".to_vec()),
            Entry::new(b"a".to_vec(), b"8".to_vec()),
        ])
        .unwrap_err();
    assert_eq!(
        err,
        Error::KeysExist(vec![
            Entry::new(b"b".to_vec(), b"9".to_vec()),
            Entry::new(b"a".to_vec(), b"8".to_vec()),
        ])
    );
    assert_eq!(data.entries_index(), 2);
}

#[test]
fn append_operation_holds_its_fields() {
    let address = Address::PubSeq { name: XorName([3; 32]), tag: 9 };
    let op = AppendOperation {
        address,
        values: vec![Entry::new(b"k".to_vec(), b"v".to_vec())],
    };
    assert_eq!(op.address, address);
    assert_eq!(op.values.len(), 1);
}

#[test]
fn permissions_enum_wraps_both_flavors() {
    let unpub = UnpubPermissions {
        permissions: Vec::new(),
        entries_index: 1,
        owners_index: 2,
    };
    let wrapped = Permissions::from(unpub.clone());
    assert_eq!(wrapped, Permissions::Unpub(unpub));
    let publ = PubPermissions {
        permissions: Vec::new(),
        entries_index: 3,
        owners_index: 4,
    };
    let wrapped = Permissions::from(publ.clone());
    assert_eq!(wrapped, Permissions::Pub(publ));
}
