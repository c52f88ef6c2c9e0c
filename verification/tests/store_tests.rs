use tee_server::store::{KeyMaterial, LruStore};
use uuid::Uuid;

/// Basic insert and retrieve with legacy P-256 key material.
#[test]
fn test_store_insert_and_retrieve_legacy() {
    let mut store = LruStore::new(100);
    let uuid = Uuid::new_v4().as_u128();
    let shared_secret = vec![0x42; 32];

    let material = KeyMaterial::LegacyP256(shared_secret.clone());

    store
        .insert_new_agreement(uuid, material)
        .expect("Insert should succeed");

    let retrieved = store.get_shared_secret(&uuid);
    assert!(retrieved.is_some(), "Should retrieve shared secret");
    assert_eq!(retrieved.unwrap(), shared_secret, "Shared secrets should match");
}

/// A pending session gives no session key until it is complete.
#[test]
fn test_store_pqxdh_pending() {
    let mut store = LruStore::new(100);
    let uuid = Uuid::new_v4().as_u128();

    let x25519_shared = vec![0x01; 32];
    let kyber_secret = vec![0x02; 2400];

    let material = KeyMaterial::PqxdhPending {
        x25519_shared: x25519_shared.clone(),
        kyber_secret: kyber_secret.clone(),
    };

    store
        .insert_new_agreement(uuid, material)
        .expect("Insert should succeed");

    let retrieved = store.get_shared_secret(&uuid);
    assert!(retrieved.is_none(), "Should not return shared secret for pending state");

    let material_retrieved = store.get_key_material(&uuid);
    assert!(material_retrieved.is_some(), "Should retrieve key material");

    match material_retrieved.unwrap() {
        KeyMaterial::PqxdhPending {
            x25519_shared: x,
            kyber_secret: k,
        } => {
            assert_eq!(x, x25519_shared, "X25519 shared secrets should match");
            assert_eq!(k, kyber_secret, "Kyber secret keys should match");
        }
        _ => panic!("Expected PqxdhPending state"),
    }
}

/// The transition from pending to complete that `key_exchange` makes.
#[test]
fn test_store_pqxdh_update_to_complete() {
    let mut store = LruStore::new(100);
    let uuid = Uuid::new_v4().as_u128();

    let material = KeyMaterial::PqxdhPending {
        x25519_shared: vec![0x01; 32],
        kyber_secret: vec![0x02; 2400],
    };

    store
        .insert_new_agreement(uuid, material)
        .expect("Insert should succeed");

    let session_key = vec![0x99; 32];
    let complete_material = KeyMaterial::PqxdhComplete(session_key.clone());

    store
        .update_key_material(&uuid, complete_material)
        .expect("Update should succeed");

    let retrieved = store.get_shared_secret(&uuid);
    assert!(retrieved.is_some(), "Should retrieve shared secret after completion");
    assert_eq!(retrieved.unwrap(), session_key, "Session keys should match");
}

/// An identifier can be used for one session only.
#[test]
fn test_store_duplicate_uuid_fails() {
    let mut store = LruStore::new(100);
    let uuid = Uuid::new_v4().as_u128();

    let material1 = KeyMaterial::LegacyP256(vec![0x01; 32]);
    let material2 = KeyMaterial::LegacyP256(vec![0x02; 32]);

    store
        .insert_new_agreement(uuid, material1)
        .expect("First insert should succeed");

    let result = store.insert_new_agreement(uuid, material2);
    assert!(result.is_err(), "Duplicate UUID should fail");
}

/// Updating a session that does not exist fails.
#[test]
fn test_store_update_nonexistent_fails() {
    let mut store = LruStore::new(100);
    let uuid = Uuid::new_v4().as_u128();

    let material = KeyMaterial::PqxdhComplete(vec![0x99; 32]);

    let result = store.update_key_material(&uuid, material);
    assert!(result.is_err(), "Update of non-existent UUID should fail");
}

/// Removal, as on errors and after a submission.
#[test]
fn test_store_remove_agreement() {
    let mut store = LruStore::new(100);
    let uuid = Uuid::new_v4().as_u128();

    let material = KeyMaterial::LegacyP256(vec![0x42; 32]);

    store
        .insert_new_agreement(uuid, material)
        .expect("Insert should succeed");

    assert!(store.get_key_material(&uuid).is_some(), "Key material should exist");

    store.remove_agreement(&uuid);

    assert!(store.get_key_material(&uuid).is_none(), "Key material should be removed");
}

/// The least recently used session leaves when the store is full.
#[test]
fn test_store_lru_eviction() {
    let mut store = LruStore::new(2);
    let uuid1 = Uuid::new_v4().as_u128();
    let uuid2 = Uuid::new_v4().as_u128();
    let uuid3 = Uuid::new_v4().as_u128();

    let material1 = KeyMaterial::LegacyP256(vec![0x01; 32]);
    let material2 = KeyMaterial::LegacyP256(vec![0x02; 32]);
    let material3 = KeyMaterial::LegacyP256(vec![0x03; 32]);

    store.insert_new_agreement(uuid1, material1).unwrap();
    store.insert_new_agreement(uuid2, material2).unwrap();

    assert!(store.get_key_material(&uuid1).is_some());
    assert!(store.get_key_material(&uuid2).is_some());

    store.insert_new_agreement(uuid3, material3).unwrap();

    assert!(store.get_key_material(&uuid1).is_none(), "First UUID should be evicted");
    assert!(store.get_key_material(&uuid2).is_some(), "Second UUID should still exist");
    assert!(store.get_key_material(&uuid3).is_some(), "Third UUID should exist");
}

/// Legacy and complete sessions give their key, a pending one gives none.
#[test]
fn test_store_get_shared_secret_variants() {
    let mut store = LruStore::new(100);

    let uuid1 = Uuid::new_v4().as_u128();
    let legacy_key = vec![0x42; 32];
    store
        .insert_new_agreement(uuid1, KeyMaterial::LegacyP256(legacy_key.clone()))
        .unwrap();
    assert_eq!(store.get_shared_secret(&uuid1).unwrap(), legacy_key);

    let uuid2 = Uuid::new_v4().as_u128();
    store
        .insert_new_agreement(
            uuid2,
            KeyMaterial::PqxdhPending {
                x25519_shared: vec![0x01; 32],
                kyber_secret: vec![0x02; 2400],
            },
        )
        .unwrap();
    assert!(store.get_shared_secret(&uuid2).is_none());

    let uuid3 = Uuid::new_v4().as_u128();
    let session_key = vec![0x99; 32];
    store
        .insert_new_agreement(uuid3, KeyMaterial::PqxdhComplete(session_key.clone()))
        .unwrap();
    assert_eq!(store.get_shared_secret(&uuid3).unwrap(), session_key);
}

/// A lookup makes a session the most recently used, so the other one leaves.
#[test]
fn test_store_lookup_refreshes_recency() {
    let mut store = LruStore::new(2);
    store.insert_new_agreement(1, KeyMaterial::LegacyP256(vec![1; 32])).unwrap();
    store.insert_new_agreement(2, KeyMaterial::LegacyP256(vec![2; 32])).unwrap();
    assert!(store.get_key_material(&1).is_some());
    store.insert_new_agreement(3, KeyMaterial::LegacyP256(vec![3; 32])).unwrap();
    assert!(store.get_key_material(&2).is_none());
    assert_eq!(store.get_shared_secret(&1).unwrap(), vec![1u8; 32]);
    assert_eq!(store.get_shared_secret(&3).unwrap(), vec![3u8; 32]);
    assert_eq!(store.len(), 2);
    assert_eq!(store.capacity(), 2);
}

/// An update counts as a use; a failed insert does not.
#[test]
fn test_store_update_refreshes_and_duplicate_does_not() {
    let mut store = LruStore::new(2);
    store
        .insert_new_agreement(
            1,
            KeyMaterial::PqxdhPending { x25519_shared: vec![1; 32], kyber_secret: vec![7; 2400] },
        )
        .unwrap();
    store.insert_new_agreement(2, KeyMaterial::LegacyP256(vec![2; 32])).unwrap();
    store.update_key_material(&1, KeyMaterial::PqxdhComplete(vec![9; 32])).unwrap();
    store.insert_new_agreement(3, KeyMaterial::LegacyP256(vec![3; 32])).unwrap();
    assert!(store.get_key_material(&2).is_none());
    assert_eq!(store.get_shared_secret(&1).unwrap(), vec![9u8; 32]);

    // now 3 is the least recently used; a refused insert under 3 does not refresh it
    let refused = store.insert_new_agreement(3, KeyMaterial::LegacyP256(vec![4; 32]));
    assert_eq!(refused, Err("UUID already exists".to_string()));
    store.insert_new_agreement(4, KeyMaterial::LegacyP256(vec![4; 32])).unwrap();
    assert!(store.get_key_material(&3).is_none());
    assert_eq!(store.get_shared_secret(&1).unwrap(), vec![9u8; 32]);
}

/// Removing twice is the same as removing once, and a removed session stays
/// away until it is inserted again.
#[test]
fn test_store_remove_is_idempotent() {
    let mut store = LruStore::new(4);
    store.insert_new_agreement(7, KeyMaterial::LegacyP256(vec![7; 32])).unwrap();
    store.insert_new_agreement(8, KeyMaterial::LegacyP256(vec![8; 32])).unwrap();
    store.remove_agreement(&7);
    store.remove_agreement(&7);
    assert!(store.get_key_material(&7).is_none());
    assert!(store.get_shared_secret(&8).is_some());
    assert_eq!(
        store.update_key_material(&7, KeyMaterial::LegacyP256(vec![1; 32])),
        Err("UUID not found".to_string())
    );
    assert!(store.get_key_material(&7).is_none());
    assert_eq!(store.len(), 1);
    store.insert_new_agreement(7, KeyMaterial::LegacyP256(vec![5; 32])).unwrap();
    assert_eq!(store.get_shared_secret(&7).unwrap(), vec![5u8; 32]);
}

/// A store without room keeps nothing.
#[test]
fn test_store_of_capacity_zero_keeps_nothing() {
    let mut store = LruStore::new(0);
    assert_eq!(store.insert_new_agreement(1, KeyMaterial::LegacyP256(vec![1; 32])), Ok(()));
    assert!(store.get_key_material(&1).is_none());
    assert_eq!(store.len(), 0);
}

/// The lengths the store asks of its material.
#[test]
fn test_key_material_well_formedness() {
    assert!(KeyMaterial::LegacyP256(vec![0; 32]).is_well_formed());
    assert!(!KeyMaterial::LegacyP256(vec![0; 31]).is_well_formed());
    assert!(!KeyMaterial::PqxdhComplete(vec![0; 33]).is_well_formed());
    assert!(KeyMaterial::PqxdhPending { x25519_shared: vec![0; 32], kyber_secret: vec![] }
        .is_well_formed());
    assert!(!KeyMaterial::PqxdhPending { x25519_shared: vec![0; 16], kyber_secret: vec![0; 2400] }
        .is_well_formed());
    assert!(KeyMaterial::LegacyP256(vec![0; 32]).is_complete());
    assert!(!KeyMaterial::PqxdhPending { x25519_shared: vec![0; 32], kyber_secret: vec![] }
        .is_complete());
    let copy = KeyMaterial::PqxdhComplete(vec![3; 32]).duplicate();
    assert!(matches!(copy, KeyMaterial::PqxdhComplete(k) if k == vec![3u8; 32]));
}

/// Asking whether an identifier is held does not count as a use.
#[test]
fn test_store_contains_does_not_refresh() {
    let mut store = LruStore::new(2);
    store.insert_new_agreement(1, KeyMaterial::LegacyP256(vec![1; 32])).unwrap();
    store.insert_new_agreement(2, KeyMaterial::LegacyP256(vec![2; 32])).unwrap();
    assert!(store.contains(&1));
    assert!(store.contains(&2));
    assert!(!store.contains(&3));
    store.insert_new_agreement(3, KeyMaterial::LegacyP256(vec![3; 32])).unwrap();
    assert!(!store.contains(&1));
    assert!(store.contains(&2));
    assert!(store.contains(&3));
}

/// After an insert, accepted or refused, the identifier is held exactly once.
#[test]
fn test_store_holds_identifier_after_insert() {
    let mut store = LruStore::new(3);
    assert_eq!(store.insert_new_agreement(5, KeyMaterial::LegacyP256(vec![5; 32])), Ok(()));
    assert!(store.contains(&5));
    assert_eq!(store.len(), 1);
    assert!(store.insert_new_agreement(5, KeyMaterial::LegacyP256(vec![6; 32])).is_err());
    assert!(store.contains(&5));
    assert_eq!(store.len(), 1);
    assert_eq!(store.get_shared_secret(&5).unwrap(), vec![5u8; 32]);
}
