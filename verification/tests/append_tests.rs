//! The aggregate's append disciplines, history appends, shells, range
//! queries and permission evaluation, exercised on concrete values.

use append_only_data::{
    Action, Address, Data, Entry, Error, Index, PubPermissionSet, PubPermissions,
    PubSeqAppendOnlyData, PubUnseqAppendOnlyData, PublicKey, UnpubPermissionSet,
    UnpubPermissions, UnpubSeqAppendOnlyData, UnpubUnseqAppendOnlyData, User, XorName,
};

fn key(n: u64) -> PublicKey {
    PublicKey::new(n, 17, 34, 51)
}

#[test]
fn append_permissions() {
    let mut data = UnpubSeqAppendOnlyData::new(XorName([1; 32]), 10000);

    // Append the first permission set with correct indices - should pass.
    let res = data.append_permissions(
        UnpubPermissions {
            permissions: Vec::new(),
            entries_index: 0,
            owners_index: 0,
        },
        0,
    );

    match res {
        Ok(()) => (),
        Err(x) => panic!("Unexpected error: {:?}", x),
    }

    // Verify that the permissions have been added.
    assert_eq!(
        data.permissions_range(Index::FromStart(0), Index::FromEnd(0))
            .unwrap()
            .len(),
        1
    );

    // Append another permissions entry with incorrect indices - should fail.
    let res = data.append_permissions(
        UnpubPermissions {
            permissions: Vec::new(),
            entries_index: 64,
            owners_index: 0,
        },
        1,
    );

    match res {
        Err(_) => (),
        Ok(()) => panic!("Unexpected Ok(()) result"),
    }

    // Verify that the number of permissions has not been changed.
    assert_eq!(
        data.permissions_range(Index::FromStart(0), Index::FromEnd(0))
            .unwrap()
            .len(),
        1
    );
}

#[test]
fn append_owners() {
    let owner_pk = key(1);

    let mut data = UnpubSeqAppendOnlyData::new(XorName([1; 32]), 10000);

    // Append the first owner with correct indices - should pass.
    let res = data.append_owner(
        append_only_data::Owner {
            public_key: owner_pk,
            entries_index: 0,
            permissions_index: 0,
        },
        0,
    );

    match res {
        Ok(()) => (),
        Err(x) => panic!("Unexpected error: {:?}", x),
    }

    // Verify that the owner has been added.
    assert_eq!(
        data.owners_range(Index::FromStart(0), Index::FromEnd(0))
            .unwrap()
            .len(),
        1
    );

    // Append another owners entry with incorrect indices - should fail.
    let res = data.append_owner(
        append_only_data::Owner {
            public_key: owner_pk,
            entries_index: 64,
            permissions_index: 0,
        },
        1,
    );

    match res {
        Err(_) => (),
        Ok(()) => panic!("Unexpected Ok(()) result"),
    }

    // Verify that the number of owners has not been changed.
    assert_eq!(
        data.owners_range(Index::FromStart(0), Index::FromEnd(0))
            .unwrap()
            .len(),
        1
    );
}

#[test]
fn seq_append_entries() {
    let mut data = PubSeqAppendOnlyData::new(XorName([1; 32]), 10000);
    data.append(vec![Entry::new(b"hello".to_vec(), b"world".to_vec())], 0)
        .unwrap();
}

#[test]
fn assert_shell() {
    let owner_pk = key(1);
    let owner_pk1 = key(2);

    let mut data = UnpubSeqAppendOnlyData::new(XorName([1; 32]), 10000);

    let _ = data.append_owner(
        append_only_data::Owner {
            public_key: owner_pk,
            entries_index: 0,
            permissions_index: 0,
        },
        0,
    );

    let _ = data.append_owner(
        append_only_data::Owner {
            public_key: owner_pk1,
            entries_index: 0,
            permissions_index: 0,
        },
        1,
    );

    assert_eq!(
        data.owners_index(),
        data.shell(Index::FromStart(0)).unwrap().owners_index()
    );
}

#[test]
fn zbase32_encode_decode_adata_address() {
    let mut name = [0u8; 32];
    for (i, b) in name.iter_mut().enumerate() {
        *b = (7 * i + 3) as u8;
    }
    let name = XorName(name);
    let address = Address::UnpubSeq { name, tag: 15000 };
    let encoded = address.encode_to_zbase32();
    let decoded = Address::decode_from_zbase32(&encoded).unwrap();
    assert_eq!(address, decoded);
}

#[test]
fn append_unseq_data_test() {
    let mut data = UnpubUnseqAppendOnlyData::new(XorName([2; 32]), 10);

    // Assert that the entries are not appended because of duplicate keys.
    let entries = vec![
        Entry::new(b"KEY1".to_vec(), b"VALUE1".to_vec()),
        Entry::new(b"KEY2".to_vec(), b"VALUE2".to_vec()),
        Entry::new(b"KEY1".to_vec(), b"VALUE1".to_vec()),
    ];
    assert_eq!(Error::DuplicateEntryKeys, data.append(entries).unwrap_err());

    // Assert that the entries are appended because there are no duplicate keys.
    let entries1 = vec![
        Entry::new(b"KEY1".to_vec(), b"VALUE1".to_vec()),
        Entry::new(b"KEY2".to_vec(), b"VALUE2".to_vec()),
    ];

    data.append(entries1).unwrap();

    // Assert that entries are not appended because they duplicate some keys appended previously.
    let entries2 = vec![Entry::new(b"KEY2".to_vec(), b"VALUE2".to_vec())];
    assert_eq!(
        Error::KeysExist(entries2.clone()),
        data.append(entries2).unwrap_err()
    );

    // Assert that no duplicate keys are present and the append operation is successful.
    let entries3 = vec![Entry::new(b"KEY3".to_vec(), b"VALUE3".to_vec())];
    data.append(entries3).unwrap();
}

#[test]
fn append_seq_data_test() {
    let mut data = UnpubSeqAppendOnlyData::new(XorName([2; 32]), 10);

    // Assert that the entries are not appended because of duplicate keys.
    let entries = vec![
        Entry::new(b"KEY1".to_vec(), b"VALUE1".to_vec()),
        Entry::new(b"KEY2".to_vec(), b"VALUE2".to_vec()),
        Entry::new(b"KEY1".to_vec(), b"VALUE1".to_vec()),
    ];
    assert_eq!(Error::DuplicateEntryKeys, data.append(entries, 0).unwrap_err());

    // Assert that the entries are appended because there are no duplicate keys.
    let entries1 = vec![
        Entry::new(b"KEY1".to_vec(), b"VALUE1".to_vec()),
        Entry::new(b"KEY2".to_vec(), b"VALUE2".to_vec()),
    ];
    data.append(entries1, 0).unwrap();

    // Assert that entries are not appended because they duplicate some keys appended previously.
    let entries2 = vec![Entry::new(b"KEY2".to_vec(), b"VALUE2".to_vec())];
    assert_eq!(
        Error::KeysExist(entries2.clone()),
        data.append(entries2, 2).unwrap_err()
    );

    // Assert that no duplicate keys are present and the append operation is successful.
    let entries3 = vec![Entry::new(b"KEY3".to_vec(), b"VALUE3".to_vec())];
    data.append(entries3, 2).unwrap();
}

#[test]
fn in_range() {
    let mut data = PubSeqAppendOnlyData::new(XorName([3; 32]), 10);
    let entries = vec![
        Entry::new(b"key0".to_vec(), b"value0".to_vec()),
        Entry::new(b"key1".to_vec(), b"value1".to_vec()),
    ];
    data.append(entries, 0).unwrap();

    assert_eq!(
        data.in_range(Index::FromStart(0), Index::FromStart(0)),
        Some(vec![])
    );
    assert_eq!(
        data.in_range(Index::FromStart(0), Index::FromStart(1)),
        Some(vec![Entry::new(b"key0".to_vec(), b"value0".to_vec())])
    );
    assert_eq!(
        data.in_range(Index::FromStart(0), Index::FromStart(2)),
        Some(vec![
            Entry::new(b"key0".to_vec(), b"value0".to_vec()),
            Entry::new(b"key1".to_vec(), b"value1".to_vec())
        ])
    );

    assert_eq!(
        data.in_range(Index::FromEnd(2), Index::FromEnd(1)),
        Some(vec![Entry::new(b"key0".to_vec(), b"value0".to_vec()),])
    );
    assert_eq!(
        data.in_range(Index::FromEnd(2), Index::FromEnd(0)),
        Some(vec![
            Entry::new(b"key0".to_vec(), b"value0".to_vec()),
            Entry::new(b"key1".to_vec(), b"value1".to_vec())
        ])
    );

    assert_eq!(
        data.in_range(Index::FromStart(0), Index::FromEnd(0)),
        Some(vec![
            Entry::new(b"key0".to_vec(), b"value0".to_vec()),
            Entry::new(b"key1".to_vec(), b"value1".to_vec())
        ])
    );

    // start > end
    assert_eq!(
        data.in_range(Index::FromStart(1), Index::FromStart(0)),
        None
    );
    assert_eq!(data.in_range(Index::FromEnd(1), Index::FromEnd(2)), None);

    // overflow
    assert_eq!(
        data.in_range(Index::FromStart(0), Index::FromStart(3)),
        None
    );
    assert_eq!(data.in_range(Index::FromEnd(3), Index::FromEnd(0)), None);
}

#[test]
fn get_permissions() {
    let public_key = key(5);
    let invalid_public_key = key(6);

    let mut pub_perms = PubPermissions {
        permissions: Vec::new(),
        entries_index: 0,
        owners_index: 0,
    };
    pub_perms.permissions.push((
        User::Key(public_key),
        PubPermissionSet::new(Some(false), Some(false)),
    ));

    let mut unpub_perms = UnpubPermissions {
        permissions: Vec::new(),
        entries_index: 0,
        owners_index: 0,
    };
    unpub_perms
        .permissions
        .push((public_key, UnpubPermissionSet::new(false, false, false)));

    // pub, unseq
    let mut data = PubUnseqAppendOnlyData::new(XorName([4; 32]), 20);
    data.append_permissions(pub_perms.clone(), 0).unwrap();
    let data = Data::from(data);

    assert_eq!(data.pub_permissions(Index::FromStart(0)), Ok(&pub_perms));
    assert_eq!(
        data.unpub_permissions(Index::FromStart(0)),
        Err(Error::NoSuchData)
    );

    assert_eq!(
        data.pub_user_permissions(User::Key(public_key), Index::FromStart(0)),
        Ok(PubPermissionSet::new(Some(false), Some(false)))
    );
    assert_eq!(
        data.unpub_user_permissions(public_key, Index::FromStart(0)),
        Err(Error::NoSuchData)
    );
    assert_eq!(
        data.pub_user_permissions(User::Key(invalid_public_key), Index::FromStart(0)),
        Err(Error::NoSuchEntry)
    );

    // pub, seq
    let mut data = PubSeqAppendOnlyData::new(XorName([5; 32]), 20);
    data.append_permissions(pub_perms.clone(), 0).unwrap();
    let data = Data::from(data);

    assert_eq!(data.pub_permissions(Index::FromStart(0)), Ok(&pub_perms));
    assert_eq!(
        data.unpub_permissions(Index::FromStart(0)),
        Err(Error::NoSuchData)
    );

    assert_eq!(
        data.pub_user_permissions(User::Key(public_key), Index::FromStart(0)),
        Ok(PubPermissionSet::new(Some(false), Some(false)))
    );
    assert_eq!(
        data.unpub_user_permissions(public_key, Index::FromStart(0)),
        Err(Error::NoSuchData)
    );
    assert_eq!(
        data.pub_user_permissions(User::Key(invalid_public_key), Index::FromStart(0)),
        Err(Error::NoSuchEntry)
    );

    // unpub, unseq
    let mut data = UnpubUnseqAppendOnlyData::new(XorName([6; 32]), 20);
    data.append_permissions(unpub_perms.clone(), 0).unwrap();
    let data = Data::from(data);

    assert_eq!(data.unpub_permissions(Index::FromStart(0)), Ok(&unpub_perms));
    assert_eq!(
        data.pub_permissions(Index::FromStart(0)),
        Err(Error::NoSuchData)
    );

    assert_eq!(
        data.unpub_user_permissions(public_key, Index::FromStart(0)),
        Ok(UnpubPermissionSet::new(false, false, false))
    );
    assert_eq!(
        data.pub_user_permissions(User::Key(public_key), Index::FromStart(0)),
        Err(Error::NoSuchData)
    );
    assert_eq!(
        data.unpub_user_permissions(invalid_public_key, Index::FromStart(0)),
        Err(Error::NoSuchEntry)
    );

    // unpub, seq
    let mut data = UnpubSeqAppendOnlyData::new(XorName([7; 32]), 20);
    data.append_permissions(unpub_perms.clone(), 0).unwrap();
    let data = Data::from(data);

    assert_eq!(data.unpub_permissions(Index::FromStart(0)), Ok(&unpub_perms));
    assert_eq!(
        data.pub_permissions(Index::FromStart(0)),
        Err(Error::NoSuchData)
    );

    assert_eq!(
        data.unpub_user_permissions(public_key, Index::FromStart(0)),
        Ok(UnpubPermissionSet::new(false, false, false))
    );
    assert_eq!(
        data.pub_user_permissions(User::Key(public_key), Index::FromStart(0)),
        Err(Error::NoSuchData)
    );
    assert_eq!(
        data.unpub_user_permissions(invalid_public_key, Index::FromStart(0)),
        Err(Error::NoSuchEntry)
    );
}

#[test]
fn check_pub_permission() {
    let public_key_0 = key(10);
    let public_key_1 = key(11);
    let public_key_2 = key(12);
    let mut inner = PubSeqAppendOnlyData::new(XorName([1; 32]), 100);

    // no owner
    let data = Data::from(inner.clone());
    assert_eq!(
        data.check_permission(Action::Append, public_key_0),
        Err(Error::InvalidOwners)
    );
    // data is published - read always allowed
    assert_eq!(data.check_permission(Action::Read, public_key_0), Ok(()));

    // no permissions
    inner
        .append_owner(
            append_only_data::Owner {
                public_key: public_key_0,
                entries_index: 0,
                permissions_index: 0,
            },
            0,
        )
        .unwrap();
    let data = Data::from(inner.clone());

    assert_eq!(data.check_permission(Action::Append, public_key_0), Ok(()));
    assert_eq!(
        data.check_permission(Action::Append, public_key_1),
        Err(Error::InvalidPermissions)
    );
    // data is published - read always allowed
    assert_eq!(data.check_permission(Action::Read, public_key_0), Ok(()));
    assert_eq!(data.check_permission(Action::Read, public_key_1), Ok(()));

    // with permissions
    let mut permissions = PubPermissions {
        permissions: Vec::new(),
        entries_index: 0,
        owners_index: 1,
    };
    permissions
        .permissions
        .push((User::Anyone, PubPermissionSet::new(Some(true), Some(false))));
    permissions.permissions.push((
        User::Key(public_key_1),
        PubPermissionSet::new(None, Some(true)),
    ));
    inner.append_permissions(permissions, 0).unwrap();
    let data = Data::from(inner);

    // existing key fallback
    assert_eq!(data.check_permission(Action::Append, public_key_1), Ok(()));
    // existing key override
    assert_eq!(
        data.check_permission(Action::ManagePermissions, public_key_1),
        Ok(())
    );
    // non-existing keys are handled by `Anyone`
    assert_eq!(data.check_permission(Action::Append, public_key_2), Ok(()));
    assert_eq!(
        data.check_permission(Action::ManagePermissions, public_key_2),
        Err(Error::AccessDenied)
    );
    // data is published - read always allowed
    assert_eq!(data.check_permission(Action::Read, public_key_0), Ok(()));
    assert_eq!(data.check_permission(Action::Read, public_key_1), Ok(()));
    assert_eq!(data.check_permission(Action::Read, public_key_2), Ok(()));
}

#[test]
fn check_unpub_permission() {
    let public_key_0 = key(20);
    let public_key_1 = key(21);
    let public_key_2 = key(22);
    let mut inner = UnpubSeqAppendOnlyData::new(XorName([1; 32]), 100);

    // no owner
    let data = Data::from(inner.clone());
    assert_eq!(
        data.check_permission(Action::Read, public_key_0),
        Err(Error::InvalidOwners)
    );

    // no permissions
    inner
        .append_owner(
            append_only_data::Owner {
                public_key: public_key_0,
                entries_index: 0,
                permissions_index: 0,
            },
            0,
        )
        .unwrap();
    let data = Data::from(inner.clone());

    assert_eq!(data.check_permission(Action::Read, public_key_0), Ok(()));
    assert_eq!(
        data.check_permission(Action::Read, public_key_1),
        Err(Error::InvalidPermissions)
    );

    // with permissions
    let mut permissions = UnpubPermissions {
        permissions: Vec::new(),
        entries_index: 0,
        owners_index: 1,
    };
    permissions
        .permissions
        .push((public_key_1, UnpubPermissionSet::new(true, true, false)));
    inner.append_permissions(permissions, 0).unwrap();
    let data = Data::from(inner);

    // existing key
    assert_eq!(data.check_permission(Action::Read, public_key_1), Ok(()));
    assert_eq!(data.check_permission(Action::Append, public_key_1), Ok(()));
    assert_eq!(
        data.check_permission(Action::ManagePermissions, public_key_1),
        Err(Error::AccessDenied)
    );

    // non-existing key
    assert_eq!(
        data.check_permission(Action::Read, public_key_2),
        Err(Error::InvalidPermissions)
    );
    assert_eq!(
        data.check_permission(Action::Append, public_key_2),
        Err(Error::InvalidPermissions)
    );
    assert_eq!(
        data.check_permission(Action::ManagePermissions, public_key_2),
        Err(Error::InvalidPermissions)
    );
}
