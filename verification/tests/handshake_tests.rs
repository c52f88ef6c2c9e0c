use aes_gcm::aead::Aead;
use aes_gcm::{Aes256Gcm, Key, KeyInit, Nonce};
use base64::engine::{general_purpose, Engine};
use hkdf::Hkdf;
use ml_kem::kem::Encapsulate;
use ml_kem::{EncodedSizeUser, KemCore, MlKem768};
use p256::elliptic_curve::sec1::ToEncodedPoint;
use sha2::Sha256;
use tee_server::error::ErrorCode;
use tee_server::handshake::{
    derive_session_key, hello_begin, hello_finish, hello_hybrid_begin, hello_legacy_begin,
    key_exchange, p256_secret_of_seed, PendingHello,
};
use tee_server::store::{KeyMaterial, LruStore};

fn hex(text: &str) -> Vec<u8> {
    let digits: Vec<u8> = text
        .bytes()
        .filter(|b| !b.is_ascii_whitespace())
        .map(|b| match b {
            b'0'..=b'9' => b - b'0',
            b'a'..=b'f' => b - b'a' + 10,
            b'A'..=b'F' => b - b'A' + 10,
            _ => panic!("not a hex digit"),
        })
        .collect();
    digits.chunks(2).map(|pair| pair[0] * 16 + pair[1]).collect()
}

fn suites(names: &[&str]) -> Vec<String> {
    names.iter().map(|n| n.to_string()).collect()
}

fn client_p256() -> (p256::SecretKey, Vec<u8>) {
    let secret = p256::SecretKey::random(&mut rand_core::OsRng);
    let public = secret.public_key().to_encoded_point(true).as_bytes().to_vec();
    (secret, public)
}

fn ecdh_x(secret: &p256::SecretKey, peer: &[u8]) -> Vec<u8> {
    let peer = p256::PublicKey::from_sec1_bytes(peer).unwrap();
    p256::ecdh::diffie_hellman(secret.to_nonzero_scalar(), peer.as_affine())
        .raw_secret_bytes()
        .to_vec()
}

fn pqxdh_key(zx: &[u8], zk: &[u8]) -> Vec<u8> {
    let mut ikm = vec![0xffu8; 32];
    ikm.extend_from_slice(zx);
    ikm.extend_from_slice(zk);
    let kdf = Hkdf::<Sha256>::new(Some(&[0u8; 32]), &ikm);
    let mut key = vec![0u8; 32];
    kdf.expand(b"Self-PQXDH-1_X25519_SHA-256_ML-KEM-768", &mut key).unwrap();
    key
}

fn encapsulate(encaps_key: &[u8]) -> (Vec<u8>, Vec<u8>) {
    let encoded: ml_kem::Encoded<<MlKem768 as KemCore>::EncapsulationKey> =
        encaps_key.try_into().unwrap();
    let key = <MlKem768 as KemCore>::EncapsulationKey::from_bytes(&encoded);
    let (ciphertext, shared) = key.encapsulate(&mut rand::thread_rng()).unwrap();
    (ciphertext.to_vec(), shared.to_vec())
}

const ALICE_SECRET: &str = "77076d0a7318a57d3c16c17251b26645df4c2f87ebc0992ab177fba51db92c2a";
const ALICE_PUBLIC: &str = "8520f0098930a754748b7ddcb43ef75a0dbf3a0d26381af4eba4a98eaa9b4e6a";
const BOB_PUBLIC: &str = "de9edb7d7b7dc1b4d35b61c2ece435373f8343c85b78674dadfc7e146f882b4f";
const ALICE_BOB_SHARED: &str = "4a5d9d5ba4ce2de1728e3bf480350f25e07e21c947d19e3376f09b3c1e161742";

/// Legacy happy path: the stored key is the X-coordinate the client computes
/// from the server's attested public key.
#[test]
fn test_legacy_hello_agrees_on_ecdh_x_coordinate() {
    let mut store = LruStore::new(10);
    let (client_secret, client_public) = client_p256();
    assert_eq!(client_public.len(), 33);

    let pending = hello_begin(&mut store, &client_public, 42, &suites(&["legacy-p256"])).unwrap();
    assert_eq!(pending.uuid(), 42);
    assert_eq!(pending.nonces().len(), 2);
    assert_eq!(pending.nonces()[0], general_purpose::STANDARD.encode(&client_public));
    let server_public = general_purpose::STANDARD.decode(&pending.nonces()[1]).unwrap();
    assert_eq!(server_public.len(), 33);
    // nothing is stored before the attestor has answered
    assert!(store.get_key_material(&42).is_none());

    let response = hello_finish(&mut store, pending, Ok(vec![0xa7, 0x7e, 0x57])).unwrap();
    assert_eq!(response.uuid, 42);
    assert_eq!(response.attestation, vec![0xa7, 0x7e, 0x57]);
    assert_eq!(response.selected_suite, "legacy-p256");
    assert!(response.x25519_pubkey.is_none());
    assert!(response.kyber_pubkey.is_none());

    let expected = ecdh_x(&client_secret, &server_public);
    assert_eq!(expected.len(), 32);
    assert_eq!(store.get_shared_secret(&42).unwrap(), expected);
}

/// The legacy first step on a fixed scalar: a known answer of ECDH on P-256.
#[test]
fn test_legacy_begin_known_answer() {
    let scalar = hex("C88F01F510D9AC3F70A292DAA2316DE544E9AAB8AFE84049C62A9C57862D1433");
    let own_x = hex("DAD0B65394221CF9B051E1FECA5787D098DFE637FC90B9EF945D0C3772581180");
    let peer_x = hex("D12DFB5289C8D4F81208B70270398C342296970A0BCCB74C736FC7554494BF63");
    let shared_x = hex("D6840F6B42F6EDAFD13116E0E12565202FEF8E9ECE7DCE03812464D04B9442DE");
    let mut peer = vec![0x03u8];
    peer.extend_from_slice(&peer_x);
    let mut own = vec![0x03u8];
    own.extend_from_slice(&own_x);

    match hello_legacy_begin(&peer, 5, &scalar).unwrap() {
        PendingHello::Legacy { uuid, nonces, session_key } => {
            assert_eq!(uuid, 5);
            assert_eq!(session_key, shared_x);
            assert_eq!(nonces.len(), 2);
            assert_eq!(general_purpose::STANDARD.decode(&nonces[0]).unwrap(), peer);
            assert_eq!(general_purpose::STANDARD.decode(&nonces[1]).unwrap(), own);
        }
        _ => panic!("expected a legacy step"),
    }
}

/// A scalar that is zero is no key: the step fails on the server's side.
#[test]
fn test_legacy_begin_rejects_invalid_scalar() {
    let (_, client_public) = client_p256();
    let err = hello_legacy_begin(&client_public, 5, &vec![0u8; 32]).unwrap_err();
    assert_eq!(err.code, ErrorCode::InternalError);
    assert_eq!(err.message, "Failed to generate ephemeral key");
}

/// A 65-byte uncompressed key is refused on the legacy path.
#[test]
fn test_legacy_hello_rejects_uncompressed_key() {
    let mut store = LruStore::new(10);
    let secret = p256::SecretKey::random(&mut rand_core::OsRng);
    let uncompressed = secret.public_key().to_encoded_point(false).as_bytes().to_vec();
    assert_eq!(uncompressed.len(), 65);
    let err = hello_begin(&mut store, &uncompressed, 1, &suites(&["legacy-p256"])).unwrap_err();
    assert_eq!(err.code, ErrorCode::InvalidRequest);
    assert_eq!(err.code.code(), -32600);
    assert_eq!(err.message, "P-256 public key must be 33 bytes");
    assert_eq!(store.len(), 0);
}

/// 33 bytes that are no point of the curve are invalid parameters.
#[test]
fn test_legacy_hello_rejects_unparseable_key() {
    let mut store = LruStore::new(10);
    let mut bogus = vec![0x02u8];
    bogus.extend_from_slice(&[0xff; 32]);
    let err = hello_begin(&mut store, &bogus, 1, &suites(&["legacy-p256"])).unwrap_err();
    assert_eq!(err.code, ErrorCode::InvalidParams);
    assert_eq!(err.code.code(), -32602);
    assert_eq!(err.message, "Error");
    let mut wrong_tag = vec![0x09u8];
    wrong_tag.extend_from_slice(&[0x11; 32]);
    let err = hello_begin(&mut store, &wrong_tag, 1, &suites(&["legacy-p256"])).unwrap_err();
    assert_eq!(err.code, ErrorCode::InvalidParams);
}

/// Without a known suite nothing is negotiated.
#[test]
fn test_hello_without_supported_suite() {
    let mut store = LruStore::new(10);
    let (_, client_public) = client_p256();
    for offered in [suites(&[]), suites(&["rot13"]), suites(&["Legacy-P256", "self-pqxdh-1"])] {
        let err = hello_begin(&mut store, &client_public, 1, &offered).unwrap_err();
        assert_eq!(err.code, ErrorCode::InvalidParams);
        assert_eq!(err.message, "No supported cryptographic suite found");
    }
    assert_eq!(store.len(), 0);
}

/// Two `hello` calls with one identifier: the second is refused and the first
/// session stays usable.
#[test]
fn test_duplicate_uuid_keeps_first_session() {
    let mut store = LruStore::new(10);
    let (first_secret, first_public) = client_p256();
    let (_, second_public) = client_p256();

    let pending = hello_begin(&mut store, &first_public, 9, &suites(&["legacy-p256"])).unwrap();
    let server_public = general_purpose::STANDARD.decode(&pending.nonces()[1]).unwrap();
    hello_finish(&mut store, pending, Ok(vec![1])).unwrap();
    let first_key = ecdh_x(&first_secret, &server_public);

    let pending = hello_begin(&mut store, &second_public, 9, &suites(&["legacy-p256"])).unwrap();
    let err = hello_finish(&mut store, pending, Ok(vec![2])).unwrap_err();
    assert_eq!(err.code, ErrorCode::InvalidRequest);
    assert_eq!(err.message, "UUID already exists");
    assert_eq!(store.get_shared_secret(&9).unwrap(), first_key);

    // the hybrid path refuses the identifier before it asks for an attestation
    let err = hello_begin(&mut store, &vec![9u8; 32], 9, &suites(&["Self-PQXDH-1"])).unwrap_err();
    assert_eq!(err.code, ErrorCode::InvalidRequest);
    assert_eq!(err.message, "UUID already exists");
    assert_eq!(store.get_shared_secret(&9).unwrap(), first_key);
}

/// A failing attestor is an internal error; a legacy session is not stored.
#[test]
fn test_legacy_attestation_failure() {
    let mut store = LruStore::new(10);
    let (_, client_public) = client_p256();
    let pending = hello_begin(&mut store, &client_public, 3, &suites(&["legacy-p256"])).unwrap();
    let err = hello_finish(&mut store, pending, Err("socket closed".to_string())).unwrap_err();
    assert_eq!(err.code, ErrorCode::InternalError);
    assert_eq!(err.code.code(), -32603);
    assert_eq!(err.message, "socket closed");
    assert!(store.get_key_material(&3).is_none());
}

/// A failing attestor removes the pending hybrid session.
#[test]
fn test_hybrid_attestation_failure_removes_session() {
    let mut store = LruStore::new(10);
    let pending =
        hello_begin(&mut store, &hex(BOB_PUBLIC), 3, &suites(&["Self-PQXDH-1"])).unwrap();
    assert!(store.get_key_material(&3).is_some());
    let err = hello_finish(&mut store, pending, Err("no token".to_string())).unwrap_err();
    assert_eq!(err.code, ErrorCode::InternalError);
    assert_eq!(err.message, "no token");
    assert!(store.get_key_material(&3).is_none());
}

/// The hybrid first step on fixed keys: a known answer of X25519.
#[test]
fn test_hybrid_begin_known_answer() {
    let mut store = LruStore::new(10);
    let decaps_key = vec![0x5a; 2400];
    let encaps_key = vec![0xa5; 1184];
    let pending = hello_hybrid_begin(
        &mut store,
        &hex(BOB_PUBLIC),
        77,
        &hex(ALICE_SECRET),
        decaps_key.clone(),
        encaps_key.clone(),
    )
    .unwrap();
    match pending {
        PendingHello::Hybrid { uuid, nonces, x25519_pubkey, kyber_pubkey } => {
            assert_eq!(uuid, 77);
            assert_eq!(x25519_pubkey, hex(ALICE_PUBLIC));
            assert_eq!(kyber_pubkey, encaps_key);
            assert_eq!(nonces.len(), 3);
            assert_eq!(nonces[0], "hSDwCYkwp1R0i33ctD73Wg2/Og0mOBr066SpjqqbTmo=");
            assert_eq!(nonces[1], general_purpose::STANDARD.encode(&encaps_key));
            assert_eq!(nonces[2], "Self-PQXDH-1");
        }
        _ => panic!("expected a hybrid step"),
    }
    match store.get_key_material(&77).unwrap() {
        KeyMaterial::PqxdhPending { x25519_shared, kyber_secret } => {
            assert_eq!(x25519_shared, hex(ALICE_BOB_SHARED));
            assert_eq!(kyber_secret, decaps_key);
        }
        _ => panic!("expected a pending session"),
    }
    assert!(store.get_shared_secret(&77).is_none());
}

/// Keys of the wrong length are refused by the hybrid first step.
#[test]
fn test_hybrid_begin_checks_lengths() {
    let mut store = LruStore::new(10);
    let err = hello_hybrid_begin(
        &mut store,
        &vec![1; 33],
        1,
        &hex(ALICE_SECRET),
        vec![0; 2400],
        vec![0; 1184],
    )
    .unwrap_err();
    assert_eq!(err.code, ErrorCode::InvalidRequest);
    assert_eq!(err.message, "X25519 public key must be 32 bytes");
    for (secret, dk, ek) in [(31usize, 2400usize, 1184usize), (32, 2399, 1184), (32, 2400, 1185)] {
        let err = hello_hybrid_begin(
            &mut store,
            &hex(BOB_PUBLIC),
            1,
            &vec![7; secret],
            vec![0; dk],
            vec![0; ek],
        )
        .unwrap_err();
        assert_eq!(err.code, ErrorCode::InternalError);
        assert_eq!(err.message, "Failed to generate ephemeral keys");
    }
    assert_eq!(store.len(), 0);
}

/// Hybrid happy path: both sides derive the same 32-byte key.
#[test]
fn test_hybrid_handshake_agrees_on_session_key() {
    let mut store = LruStore::new(10);
    let client_secret = x25519_dalek::StaticSecret::random_from_rng(rand_core::OsRng);
    let client_public = x25519_dalek::PublicKey::from(&client_secret).as_bytes().to_vec();

    let pending = hello_begin(
        &mut store,
        &client_public,
        1001,
        &suites(&["Self-PQXDH-1", "legacy-p256"]),
    )
    .unwrap();
    assert_eq!(pending.nonces().len(), 3);
    assert_eq!(pending.nonces()[2], "Self-PQXDH-1");
    let nonces = pending.nonces().clone();
    let response = hello_finish(&mut store, pending, Ok(b"token".to_vec())).unwrap();
    assert_eq!(response.selected_suite, "Self-PQXDH-1");
    assert_eq!(response.attestation, b"token".to_vec());
    let server_x25519 = response.x25519_pubkey.unwrap();
    let server_kem = response.kyber_pubkey.unwrap();
    assert_eq!(server_x25519.len(), 32);
    assert_eq!(server_kem.len(), 1184);
    assert_eq!(nonces[0], general_purpose::STANDARD.encode(&server_x25519));
    assert_eq!(nonces[1], general_purpose::STANDARD.encode(&server_kem));
    assert!(store.get_shared_secret(&1001).is_none());

    let mut server_point = [0u8; 32];
    server_point.copy_from_slice(&server_x25519);
    let zx = client_secret
        .diffie_hellman(&x25519_dalek::PublicKey::from(server_point))
        .as_bytes()
        .to_vec();
    let (ciphertext, zk) = encapsulate(&server_kem);
    assert_eq!(ciphertext.len(), 1088);

    let reply = key_exchange(&mut store, 1001, &ciphertext).unwrap();
    assert_eq!(reply, "key_exchange_complete");
    let key = store.get_shared_secret(&1001).unwrap();
    assert_eq!(key.len(), 32);
    assert_eq!(key, pqxdh_key(&zx, &zk));
    assert!(matches!(store.get_key_material(&1001), Some(KeyMaterial::PqxdhComplete(_))));
}

/// A ciphertext of 1087 bytes is refused, the session stays pending, and a
/// ciphertext of the right length completes it afterwards.
#[test]
fn test_key_exchange_wrong_ciphertext_size_keeps_session() {
    let mut store = LruStore::new(10);
    let pending =
        hello_begin(&mut store, &hex(BOB_PUBLIC), 8, &suites(&["Self-PQXDH-1"])).unwrap();
    let response = hello_finish(&mut store, pending, Ok(vec![])).unwrap();

    let err = key_exchange(&mut store, 8, &vec![0u8; 1087]).unwrap_err();
    assert_eq!(err.code, ErrorCode::InvalidRequest);
    assert_eq!(err.message, "Invalid Kyber ciphertext length: expected 1088, got 1087");
    assert!(matches!(store.get_key_material(&8), Some(KeyMaterial::PqxdhPending { .. })));

    let err = key_exchange(&mut store, 8, &vec![]).unwrap_err();
    assert_eq!(err.message, "Invalid Kyber ciphertext length: expected 1088, got 0");
    let err = key_exchange(&mut store, 8, &vec![0u8; 12345]).unwrap_err();
    assert_eq!(err.message, "Invalid Kyber ciphertext length: expected 1088, got 12345");

    let (ciphertext, _) = encapsulate(&response.kyber_pubkey.unwrap());
    assert_eq!(key_exchange(&mut store, 8, &ciphertext).unwrap(), "key_exchange_complete");
}

/// `key_exchange` on an unknown identifier.
#[test]
fn test_key_exchange_unknown_uuid() {
    let mut store = LruStore::new(10);
    let err = key_exchange(&mut store, 8, &vec![0u8; 1088]).unwrap_err();
    assert_eq!(err.code, ErrorCode::InvalidRequest);
    assert_eq!(err.message, "UUID not found");
}

/// `key_exchange` on a legacy or complete session removes it.
#[test]
fn test_key_exchange_wrong_state_removes_session() {
    let mut store = LruStore::new(10);
    store.insert_new_agreement(1, KeyMaterial::LegacyP256(vec![1; 32])).unwrap();
    store.insert_new_agreement(2, KeyMaterial::PqxdhComplete(vec![2; 32])).unwrap();
    for id in [1u128, 2u128] {
        let err = key_exchange(&mut store, id, &vec![0u8; 1088]).unwrap_err();
        assert_eq!(err.code, ErrorCode::InvalidRequest);
        assert_eq!(err.message, "UUID is not in PQXDH pending state");
        assert!(store.get_key_material(&id).is_none());
    }
}

/// A stored decapsulation key of the wrong length is an internal error.
#[test]
fn test_key_exchange_with_truncated_decapsulation_key() {
    let mut store = LruStore::new(10);
    store
        .insert_new_agreement(
            4,
            KeyMaterial::PqxdhPending { x25519_shared: vec![1; 32], kyber_secret: vec![2; 2399] },
        )
        .unwrap();
    let err = key_exchange(&mut store, 4, &vec![0u8; 1088]).unwrap_err();
    assert_eq!(err.code, ErrorCode::InternalError);
    assert_eq!(err.message, "Invalid decapsulation key length");
    assert!(store.get_key_material(&4).is_none());
}

/// Decapsulation never refuses a ciphertext of the right length: a wrong one
/// yields a key the client does not have.
#[test]
fn test_key_exchange_with_foreign_ciphertext_completes() {
    let mut store = LruStore::new(10);
    let (decaps_key, encaps_key) = MlKem768::generate(&mut rand::thread_rng());
    let pending = hello_hybrid_begin(
        &mut store,
        &hex(BOB_PUBLIC),
        6,
        &hex(ALICE_SECRET),
        decaps_key.as_bytes().to_vec(),
        encaps_key.as_bytes().to_vec(),
    )
    .unwrap();
    hello_finish(&mut store, pending, Ok(vec![])).unwrap();
    let (ciphertext, zk) = encapsulate(&encaps_key.as_bytes());
    let mut tampered = ciphertext.clone();
    tampered[0] ^= 1;
    assert_eq!(key_exchange(&mut store, 6, &tampered).unwrap(), "key_exchange_complete");
    let key = store.get_shared_secret(&6).unwrap();
    assert_ne!(key, pqxdh_key(&hex(ALICE_BOB_SHARED), &zk));
    assert_eq!(key.len(), 32);
}

/// The derivation against HKDF-SHA-256 computed directly.
#[test]
fn test_derive_session_key_matches_hkdf() {
    let zx = hex(ALICE_BOB_SHARED);
    let zk = vec![0x33u8; 32];
    let key = derive_session_key(&zx, &zk).unwrap();
    assert_eq!(key, pqxdh_key(&zx, &zk));
    assert_ne!(key, derive_session_key(&zk, &zx).unwrap());
    assert_eq!(
        derive_session_key(&vec![], &vec![]).unwrap(),
        pqxdh_key(&[], &[])
    );
}

/// The identity point as an X25519 key is accepted.
#[test]
fn test_hybrid_hello_accepts_all_zero_key() {
    let mut store = LruStore::new(10);
    let pending = hello_begin(&mut store, &vec![0u8; 32], 2, &suites(&["Self-PQXDH-1"])).unwrap();
    assert_eq!(pending.uuid(), 2);
    match store.get_key_material(&2).unwrap() {
        KeyMaterial::PqxdhPending { x25519_shared, kyber_secret } => {
            assert_eq!(x25519_shared, vec![0u8; 32]);
            assert_eq!(kyber_secret.len(), 2400);
        }
        _ => panic!("expected a pending session"),
    }
}

/// An envelope sealed on the client's side opens on the server's side.
#[test]
fn test_client_side_envelope_round_trip() {
    let key = [7u8; 32];
    let cipher = Aes256Gcm::new(Key::<Aes256Gcm>::from_slice(&key));
    let sealed = cipher.encrypt(Nonce::from_slice(&[1u8; 12]), b"hello".as_ref()).unwrap();
    let (body, tag) = sealed.split_at(sealed.len() - 16);
    let text = tee_server::utils::decrypt(key, body.to_vec(), tag, &[1u8; 12]).unwrap();
    assert_eq!(text, "hello");
}

/// Hybrid is chosen although legacy is listed first, so a 33-byte key is
/// refused for its length and nothing is stored.
#[test]
fn test_hybrid_preferred_rejects_legacy_sized_key() {
    let mut store = LruStore::new(10);
    let err = hello_begin(&mut store, &vec![0u8; 33], 0, &suites(&["legacy-p256", "Self-PQXDH-1"]))
        .unwrap_err();
    assert_eq!(err.code, ErrorCode::InvalidRequest);
    assert_eq!(err.code.code(), -32600);
    assert_eq!(err.message, "X25519 public key must be 32 bytes");
    assert!(store.get_key_material(&0).is_none());
    assert_eq!(store.len(), 0);
}

/// The keys of a hybrid answer have their lengths and belong together: the
/// stored decapsulation key holds the encapsulation key that was sent.
#[test]
fn test_hybrid_answer_keys_belong_together() {
    let mut store = LruStore::new(10);
    let pending =
        hello_begin(&mut store, &hex(BOB_PUBLIC), 12, &suites(&["Self-PQXDH-1"])).unwrap();
    let response = hello_finish(&mut store, pending, Ok(vec![9])).unwrap();
    let x25519_pubkey = response.x25519_pubkey.unwrap();
    let kyber_pubkey = response.kyber_pubkey.unwrap();
    assert_eq!(x25519_pubkey.len(), 32);
    assert_eq!(kyber_pubkey.len(), 1184);
    match store.get_key_material(&12).unwrap() {
        KeyMaterial::PqxdhPending { x25519_shared, kyber_secret } => {
            assert_eq!(x25519_shared.len(), 32);
            assert_eq!(kyber_secret.len(), 2400);
            assert_eq!(kyber_secret[1152..2336].to_vec(), kyber_pubkey);
        }
        _ => panic!("expected a pending session"),
    }
    // two calls draw different keys
    let pending =
        hello_begin(&mut store, &hex(BOB_PUBLIC), 13, &suites(&["Self-PQXDH-1"])).unwrap();
    let second = hello_finish(&mut store, pending, Ok(vec![9])).unwrap();
    assert_ne!(second.kyber_pubkey.unwrap(), kyber_pubkey);
    assert_ne!(second.x25519_pubkey.unwrap(), x25519_pubkey);
}

/// A seed stands for one scalar, which is a key and not the seed itself.
#[test]
fn test_p256_secret_of_seed() {
    let zero = p256_secret_of_seed(&vec![0u8; 32]).unwrap();
    assert_eq!(zero.len(), 32);
    assert_ne!(zero, vec![0u8; 32]);
    assert_eq!(p256_secret_of_seed(&vec![0u8; 32]).unwrap(), zero);
    let other = p256_secret_of_seed(&vec![1u8; 32]).unwrap();
    assert_ne!(other, zero);
    assert!(p256::SecretKey::from_slice(&zero).is_ok());
    assert!(p256::SecretKey::from_slice(&other).is_ok());
    assert!(p256_secret_of_seed(&vec![0u8; 31]).is_none());
    assert!(p256_secret_of_seed(&vec![0u8; 33]).is_none());
    assert!(p256_secret_of_seed(&vec![]).is_none());

    // with a key of the client that is a point, the first step succeeds
    let (_, client_public) = client_p256();
    assert!(hello_legacy_begin(&client_public, 1, &zero).is_ok());
}

/// A second hybrid `hello` under an identifier in use is refused before
/// anything is drawn, and the pending session stays as it was.
#[test]
fn test_duplicate_hybrid_hello_leaves_pending_session() {
    let mut store = LruStore::new(10);
    let pending =
        hello_begin(&mut store, &hex(BOB_PUBLIC), 21, &suites(&["Self-PQXDH-1"])).unwrap();
    let response = hello_finish(&mut store, pending, Ok(vec![])).unwrap();
    let before = match store.get_key_material(&21).unwrap() {
        KeyMaterial::PqxdhPending { x25519_shared, kyber_secret } => (x25519_shared, kyber_secret),
        _ => panic!("expected a pending session"),
    };
    let err = hello_begin(&mut store, &hex(ALICE_PUBLIC), 21, &suites(&["Self-PQXDH-1"]))
        .unwrap_err();
    assert_eq!(err.code, ErrorCode::InvalidRequest);
    assert_eq!(err.message, "UUID already exists");
    match store.get_key_material(&21).unwrap() {
        KeyMaterial::PqxdhPending { x25519_shared, kyber_secret } => {
            assert_eq!((x25519_shared, kyber_secret), before);
        }
        _ => panic!("expected a pending session"),
    }
    let (ciphertext, _) = encapsulate(&response.kyber_pubkey.unwrap());
    assert_eq!(key_exchange(&mut store, 21, &ciphertext).unwrap(), "key_exchange_complete");
}
