use crate::bytes::{append_bytes, filled};
use crate::error::{ErrorCode, Failure, RpcError};
use crate::primitives::{
    base64_encode, base64_standard, bytes_of, hkdf_sha256, hkdf_sha256_expand,
    mlkem768_decapsulate, mlkem768_decapsulated, mlkem768_generate, mlkem768_keypair,
    p256_diffie_hellman, p256_generate, p256_parse_point, p256_point, p256_public,
    p256_public_key, p256_secret, p256_shared, system_random_32, x25519_diffie_hellman,
    x25519_public, x25519_public_key, x25519_shared, MLKEM768_CIPHERTEXT_LEN,
    MLKEM768_DECAPS_KEY_LEN, MLKEM768_ENCAPS_KEY_LEN, P256_SCALAR_LEN, SEED_LEN, X25519_LEN,
};
use crate::store::{
    lemma_lookup_after_change, lemma_removed_stays_absent, lemma_touch_keeps_contents,
    KeyMaterial, LruStore, MaterialView, SessionId, StoreView, KEY_LEN,
};
use crate::suite::{negotiate, select, Suite, HYBRID_PQXDH_V1_NAME, LEGACY_P256_NAME};
use crate::text::{decimal, joined, texts, to_decimal};
use crate::types::{HelloResponse, HelloResponseView};
use vstd::prelude::*;
use vstd::string::*;

verus! {

/// Length of a SEC1-compressed P-256 public key, the only form the legacy suite accepts.
pub const P256_COMPRESSED_LEN: usize = 33;

/// The `info` input of the hybrid key derivation.
pub const PQXDH_INFO: &'static str = "Self-PQXDH-1_X25519_SHA-256_ML-KEM-768";

/// What `key_exchange` answers on success.
pub const KEY_EXCHANGE_COMPLETE: &'static str = "key_exchange_complete";

/// A `hello` call that waits for its attestation document.
#[derive(Debug)]
pub enum PendingHello {
    /// The session key is computed; it is stored once the document is there.
    Legacy { uuid: SessionId, nonces: Vec<String>, session_key: Vec<u8> },
    /// The pending session is stored; the public keys go into the answer.
    Hybrid { uuid: SessionId, nonces: Vec<String>, x25519_pubkey: Vec<u8>, kyber_pubkey: Vec<u8> },
}

/// A [`PendingHello`] as a mathematical value.
pub enum PendingView {
    Legacy { uuid: SessionId, nonces: Seq<Seq<char>>, session_key: Seq<u8> },
    Hybrid {
        uuid: SessionId,
        nonces: Seq<Seq<char>>,
        x25519_pubkey: Seq<u8>,
        kyber_pubkey: Seq<u8>,
    },
}

impl View for PendingHello {
    type V = PendingView;

    open spec fn view(&self) -> PendingView {
        match self {
            PendingHello::Legacy { uuid, nonces, session_key } => PendingView::Legacy {
                uuid: *uuid,
                nonces: texts(nonces@),
                session_key: session_key@,
            },
            PendingHello::Hybrid { uuid, nonces, x25519_pubkey, kyber_pubkey } => PendingView::Hybrid {
                uuid: *uuid,
                nonces: texts(nonces@),
                x25519_pubkey: x25519_pubkey@,
                kyber_pubkey: kyber_pubkey@,
            },
        }
    }
}

impl PendingHello {
    /// A legacy session key has 32 bytes; the public keys of a hybrid session
    /// have 32 and 1184.
    pub open spec fn wf(&self) -> bool {
        match self@ {
            PendingView::Legacy { session_key, .. } => session_key.len() == KEY_LEN,
            PendingView::Hybrid { x25519_pubkey, kyber_pubkey, .. } => x25519_pubkey.len()
                == X25519_LEN && kyber_pubkey.len() == MLKEM768_ENCAPS_KEY_LEN,
        }
    }

    /// The nonces the attestation document has to commit to, in their order.
    pub fn nonces(&self) -> (n: &Vec<String>)
        ensures
            texts(n@) == match self@ {
                PendingView::Legacy { nonces, .. } => nonces,
                PendingView::Hybrid { nonces, .. } => nonces,
            },
    {
        match self {
            PendingHello::Legacy { nonces, .. } => nonces,
            PendingHello::Hybrid { nonces, .. } => nonces,
        }
    }

    /// The session the call is about.
    pub fn uuid(&self) -> (id: SessionId)
        ensures
            id == match self@ {
                PendingView::Legacy { uuid, .. } => uuid,
                PendingView::Hybrid { uuid, .. } => uuid,
            },
    {
        match self {
            PendingHello::Legacy { uuid, .. } => *uuid,
            PendingHello::Hybrid { uuid, .. } => *uuid,
        }
    }
}

/// What a step of `hello` returned, as a mathematical value.
pub open spec fn begun(r: Result<PendingHello, RpcError>) -> Result<PendingView, Failure> {
    match r {
        Ok(pending) => Ok(pending@),
        Err(e) => Err(e@),
    }
}

/// What `hello` answered, as a mathematical value.
pub open spec fn answered(r: Result<HelloResponse, RpcError>) -> Result<
    HelloResponseView,
    Failure,
> {
    match r {
        Ok(response) => Ok(response@),
        Err(e) => Err(e@),
    }
}

/// What a call answered in text, as a mathematical value.
pub open spec fn replied(r: Result<String, RpcError>) -> Result<Seq<char>, Failure> {
    match r {
        Ok(text) => Ok(text@),
        Err(e) => Err(e@),
    }
}

/// What the attestor returned, as a mathematical value.
pub open spec fn attested(r: Result<Vec<u8>, String>) -> Result<Seq<u8>, Seq<char>> {
    match r {
        Ok(document) => Ok(document@),
        Err(reason) => Err(reason@),
    }
}

/// The nonces of a legacy session: the client's and the server's compressed
/// public keys in Base64.
pub open spec fn legacy_nonces(client: Seq<u8>, server: Seq<u8>) -> Seq<Seq<char>> {
    seq![base64_standard(client), base64_standard(server)]
}

/// The nonces of a hybrid session: the server's X25519 public key and its
/// encapsulation key in Base64, then the suite's name.
pub open spec fn hybrid_nonces(x25519_pubkey: Seq<u8>, kyber_pubkey: Seq<u8>) -> Seq<Seq<char>> {
    seq![base64_standard(x25519_pubkey), base64_standard(kyber_pubkey), HYBRID_PQXDH_V1_NAME@]
}

/// The first step of a legacy `hello` with the server's secret scalar `secret`.
pub open spec fn legacy_begun(user_pubkey: Seq<u8>, uuid: SessionId, secret: Seq<u8>) -> Result<
    PendingView,
    Failure,
> {
    if user_pubkey.len() != P256_COMPRESSED_LEN {
        Err(Failure::invalid_request("P-256 public key must be 33 bytes"@))
    } else {
        match p256_point(user_pubkey, true) {
            None => Err(Failure::invalid_params("Error"@)),
            Some(client) => match (p256_public(secret, true), p256_shared(secret, user_pubkey)) {
                (Some(server), Some(session_key)) => Ok(
                    PendingView::Legacy {
                        uuid,
                        nonces: legacy_nonces(client, server),
                        session_key,
                    },
                ),
                _ => Err(Failure::internal("Failed to generate ephemeral key"@)),
            },
        }
    }
}

/// The first step of a hybrid `hello` with the server's X25519 scalar and its
/// ML-KEM-768 key pair: the step's result and the store after it.
pub open spec fn hybrid_begun(
    store: StoreView,
    user_pubkey: Seq<u8>,
    uuid: SessionId,
    x25519_secret: Seq<u8>,
    decaps_key: Seq<u8>,
    encaps_key: Seq<u8>,
) -> (Result<PendingView, Failure>, StoreView) {
    if user_pubkey.len() != X25519_LEN {
        (Err(Failure::invalid_request("X25519 public key must be 32 bytes"@)), store)
    } else if x25519_secret.len() != X25519_LEN || decaps_key.len() != MLKEM768_DECAPS_KEY_LEN
        || encaps_key.len() != MLKEM768_ENCAPS_KEY_LEN {
        (Err(Failure::internal("Failed to generate ephemeral keys"@)), store)
    } else if store.holds(uuid) {
        (Err(Failure::invalid_request("UUID already exists"@)), store)
    } else {
        (
            Ok(
                PendingView::Hybrid {
                    uuid,
                    nonces: hybrid_nonces(x25519_public(x25519_secret), encaps_key),
                    x25519_pubkey: x25519_public(x25519_secret),
                    kyber_pubkey: encaps_key,
                },
            ),
            store.with_new(
                uuid,
                MaterialView::PqxdhPending {
                    x25519_shared: x25519_shared(x25519_secret, user_pubkey),
                    kyber_secret: decaps_key,
                },
            ),
        )
    }
}

/// The last step of `hello`, once the attestor has answered: the call's
/// result and the store after it.
pub open spec fn hello_finished(
    store: StoreView,
    pending: PendingView,
    attestation: Result<Seq<u8>, Seq<char>>,
) -> (Result<HelloResponseView, Failure>, StoreView) {
    match pending {
        PendingView::Legacy { uuid, session_key, .. } => match attestation {
            Err(reason) => (Err(Failure::internal(reason)), store),
            Ok(document) => if store.holds(uuid) {
                (Err(Failure::invalid_request("UUID already exists"@)), store)
            } else {
                (
                    Ok(
                        HelloResponseView {
                            uuid,
                            attestation: document,
                            selected_suite: LEGACY_P256_NAME@,
                            x25519_pubkey: None,
                            kyber_pubkey: None,
                        },
                    ),
                    store.with_new(uuid, MaterialView::LegacyP256(session_key)),
                )
            },
        },
        PendingView::Hybrid { uuid, x25519_pubkey, kyber_pubkey, .. } => match attestation {
            Err(reason) => (Err(Failure::internal(reason)), store.without(uuid)),
            Ok(document) => (
                Ok(
                    HelloResponseView {
                        uuid,
                        attestation: document,
                        selected_suite: HYBRID_PQXDH_V1_NAME@,
                        x25519_pubkey: Some(x25519_pubkey),
                        kyber_pubkey: Some(kyber_pubkey),
                    },
                ),
                store,
            ),
        },
    }
}

/// What `hello` answers when the system's generator gave nothing.
pub open spec fn no_entropy() -> Failure {
    Failure::internal("Failed to gather entropy"@)
}

/// What holds of every seed from which a legacy session draws its scalar: it
/// has 32 bytes, and the scalar has 32 bytes and a public key.
pub open spec fn legacy_draw(seed: Seq<u8>) -> bool {
    &&& seed.len() == SEED_LEN
    &&& p256_secret(seed).len() == P256_SCALAR_LEN
    &&& p256_public(p256_secret(seed), true) is Some
}

/// What holds of everything a hybrid session draws: the X25519 scalar and the
/// seed of the key pair have 32 bytes each, and the pair has the lengths of
/// ML-KEM-768.
pub open spec fn hybrid_draw(x25519_secret: Seq<u8>, seed: Seq<u8>) -> bool {
    &&& x25519_secret.len() == X25519_LEN
    &&& seed.len() == SEED_LEN
    &&& mlkem768_keypair(seed).0.len() == MLKEM768_DECAPS_KEY_LEN
    &&& mlkem768_keypair(seed).1.len() == MLKEM768_ENCAPS_KEY_LEN
}

/// The first step of `hello` for what the system's generator gave it. An
/// unknown suite, a key of the wrong length and, on the hybrid path, an
/// identifier in use end the call before anything is drawn; after that the
/// call fails when the generator gives nothing, and else takes the suite's
/// first step with the keys drawn from the seeds.
pub open spec fn hello_begun(
    store: StoreView,
    user_pubkey: Seq<u8>,
    uuid: SessionId,
    advertised: Seq<Seq<char>>,
    first: Option<Seq<u8>>,
    second: Option<Seq<u8>>,
) -> (Result<PendingView, Failure>, StoreView) {
    match select(advertised) {
        None => (
            Err(Failure::invalid_params("No supported cryptographic suite found"@)),
            store,
        ),
        Some(Suite::LegacyP256) => {
            if user_pubkey.len() != P256_COMPRESSED_LEN {
                (Err(Failure::invalid_request("P-256 public key must be 33 bytes"@)), store)
            } else {
                match first {
                    None => (Err(no_entropy()), store),
                    Some(seed) => (legacy_begun(user_pubkey, uuid, p256_secret(seed)), store),
                }
            }
        },
        Some(Suite::HybridPqxdhV1) => {
            if user_pubkey.len() != X25519_LEN {
                (Err(Failure::invalid_request("X25519 public key must be 32 bytes"@)), store)
            } else if store.holds(uuid) {
                (Err(Failure::invalid_request("UUID already exists"@)), store)
            } else {
                match (first, second) {
                    (Some(x25519_secret), Some(seed)) => hybrid_begun(
                        store,
                        user_pubkey,
                        uuid,
                        x25519_secret,
                        mlkem768_keypair(seed).0,
                        mlkem768_keypair(seed).1,
                    ),
                    _ => (Err(no_entropy()), store),
                }
            }
        },
    }
}

/// What holds of whatever the system's generator gave to one `hello`: the
/// first draw is the seed of a legacy scalar or the X25519 scalar, the second
/// the seed of the ML-KEM key pair.
pub open spec fn drawn(suite: Option<Suite>, first: Option<Seq<u8>>, second: Option<Seq<u8>>)
    -> bool {
    match suite {
        Some(Suite::LegacyP256) => first matches Some(seed) ==> legacy_draw(seed),
        Some(Suite::HybridPqxdhV1) => first matches Some(x25519_secret) ==> x25519_secret.len()
            == X25519_LEN && (second matches Some(seed) ==> hybrid_draw(x25519_secret, seed)),
        None => true,
    }
}

/// The input keying material of the hybrid derivation: 32 bytes `0xFF`, the
/// X25519 secret, the KEM secret.
pub open spec fn pqxdh_ikm(x25519_shared: Seq<u8>, kem_shared: Seq<u8>) -> Seq<u8> {
    Seq::new(32, |i: int| 0xffu8) + x25519_shared + kem_shared
}

/// The salt of the hybrid derivation: 32 zero bytes.
pub open spec fn pqxdh_salt() -> Seq<u8> {
    Seq::new(32, |i: int| 0u8)
}

/// The session key of a hybrid session: HKDF-SHA-256 over both shared
/// secrets, to 32 bytes.
pub open spec fn pqxdh_session_key(x25519_shared: Seq<u8>, kem_shared: Seq<u8>) -> Option<
    Seq<u8>,
> {
    hkdf_sha256(
        pqxdh_salt(),
        pqxdh_ikm(x25519_shared, kem_shared),
        vstd::utf8::encode_utf8(PQXDH_INFO@),
        32,
    )
}

/// What `key_exchange` says of a ciphertext of the wrong length.
pub open spec fn wrong_ciphertext_length(len: nat) -> Seq<char> {
    "Invalid Kyber ciphertext length: expected 1088, got "@ + decimal(len)
}

/// The second round of a hybrid handshake: the call's result and the store after it.
pub open spec fn key_exchanged(store: StoreView, uuid: SessionId, ciphertext: Seq<u8>) -> (
    Result<Seq<char>, Failure>,
    StoreView,
) {
    if ciphertext.len() != MLKEM768_CIPHERTEXT_LEN {
        (Err(Failure::invalid_request(wrong_ciphertext_length(ciphertext.len()))), store)
    } else {
        match store.lookup(uuid) {
            None => (Err(Failure::invalid_request("UUID not found"@)), store),
            Some(MaterialView::PqxdhPending { x25519_shared, kyber_secret }) => {
                if kyber_secret.len() != MLKEM768_DECAPS_KEY_LEN {
                    (
                        Err(Failure::internal("Invalid decapsulation key length"@)),
                        store.without(uuid),
                    )
                } else {
                    match mlkem768_decapsulated(kyber_secret, ciphertext) {
                        None => (
                            Err(Failure::internal("Decapsulation failed"@)),
                            store.without(uuid),
                        ),
                        Some(kem_shared) => match pqxdh_session_key(x25519_shared, kem_shared) {
                            None => (
                                Err(Failure::internal("HKDF expansion failed"@)),
                                store.without(uuid),
                            ),
                            Some(session_key) => (
                                Ok(KEY_EXCHANGE_COMPLETE@),
                                store.replaced(uuid, MaterialView::PqxdhComplete(session_key)),
                            ),
                        },
                    }
                }
            },
            Some(_) => (
                Err(Failure::invalid_request("UUID is not in PQXDH pending state"@)),
                store.without(uuid),
            ),
        }
    }
}

/// Derives the session key of a hybrid session from its two shared secrets.
pub fn derive_session_key(x25519_shared: &Vec<u8>, kem_shared: &Vec<u8>) -> (key: Option<Vec<u8>>)
    ensures
        bytes_of(key) == pqxdh_session_key(x25519_shared@, kem_shared@),
        key matches Some(k) ==> k@.len() == KEY_LEN,
        key is Some,
{
    let mut ikm = filled(0xff, 32);
    append_bytes(&mut ikm, x25519_shared.as_slice());
    append_bytes(&mut ikm, kem_shared.as_slice());
    let salt = filled(0, 32);
    let info = PQXDH_INFO.as_bytes_vec();
    hkdf_sha256_expand(&salt, &ikm, &info, 32)
}

/// First step of a legacy `hello` with a given secret scalar: checks the
/// client's key, computes the server's public key and the session key, and
/// names the nonces to attest. The store is not touched before the attestor
/// has answered.
pub fn hello_legacy_begin(user_pubkey: &Vec<u8>, uuid: SessionId, secret: &Vec<u8>) -> (r: Result<
    PendingHello,
    RpcError,
>)
    ensures
        begun(r) == legacy_begun(user_pubkey@, uuid, secret@),
        r matches Ok(pending) ==> pending.wf(),
        r is Ok <==> user_pubkey@.len() == P256_COMPRESSED_LEN && p256_point(user_pubkey@, true)
            is Some && p256_public(secret@, true) is Some,
{
    if user_pubkey.len() != P256_COMPRESSED_LEN {
        return Err(RpcError::invalid_request("P-256 public key must be 33 bytes"));
    }
    let client = match p256_parse_point(user_pubkey, true) {
        Some(client) => client,
        None => {
            return Err(RpcError::invalid_params("Error"));
        },
    };
    let server = match p256_public_key(secret, true) {
        Some(server) => server,
        None => {
            return Err(RpcError::internal("Failed to generate ephemeral key"));
        },
    };
    let session_key = match p256_diffie_hellman(secret, user_pubkey) {
        Some(session_key) => session_key,
        None => {
            return Err(RpcError::internal("Failed to generate ephemeral key"));
        },
    };
    let mut nonces: Vec<String> = Vec::new();
    nonces.push(base64_encode(&client));
    nonces.push(base64_encode(&server));
    assert(texts(nonces@) =~= legacy_nonces(client@, server@));
    Ok(PendingHello::Legacy { uuid, nonces, session_key })
}

/// First step of a hybrid `hello` with given server keys: checks the client's
/// key, computes the X25519 secret, stores the pending session unless one
/// exists under `uuid`, and names the nonces to attest.
pub fn hello_hybrid_begin(
    store: &mut LruStore,
    user_pubkey: &Vec<u8>,
    uuid: SessionId,
    x25519_secret: &Vec<u8>,
    decaps_key: Vec<u8>,
    encaps_key: Vec<u8>,
) -> (r: Result<PendingHello, RpcError>)
    requires
        old(store).wf(),
    ensures
        final(store).wf(),
        (begun(r), final(store)@) == hybrid_begun(
            old(store)@,
            user_pubkey@,
            uuid,
            x25519_secret@,
            decaps_key@,
            encaps_key@,
        ),
        r matches Ok(pending) ==> pending.wf(),
{
    if user_pubkey.len() != X25519_LEN {
        return Err(RpcError::invalid_request("X25519 public key must be 32 bytes"));
    }
    if x25519_secret.len() != X25519_LEN || decaps_key.len() != MLKEM768_DECAPS_KEY_LEN
        || encaps_key.len() != MLKEM768_ENCAPS_KEY_LEN {
        return Err(RpcError::internal("Failed to generate ephemeral keys"));
    }
    let x25519_pubkey = x25519_public_key(x25519_secret);
    let shared = x25519_diffie_hellman(x25519_secret, user_pubkey);
    let material = KeyMaterial::PqxdhPending { x25519_shared: shared, kyber_secret: decaps_key };
    match store.insert_new_agreement(uuid, material) {
        Ok(()) => {},
        Err(_) => {
            return Err(RpcError::invalid_request("UUID already exists"));
        },
    }
    let mut nonces: Vec<String> = Vec::new();
    nonces.push(base64_encode(&x25519_pubkey));
    nonces.push(base64_encode(&encaps_key));
    nonces.push(String::from_str(HYBRID_PQXDH_V1_NAME));
    assert(texts(nonces@) =~= hybrid_nonces(x25519_pubkey@, encaps_key@));
    Ok(PendingHello::Hybrid { uuid, nonces, x25519_pubkey, kyber_pubkey: encaps_key })
}

/// The P-256 secret scalar that a seed of 32 bytes stands for; none for a
/// seed of another length. The scalar has a public key.
pub fn p256_secret_of_seed(seed: &Vec<u8>) -> (secret: Option<Vec<u8>>)
    ensures
        secret is Some <==> seed@.len() == SEED_LEN,
        secret matches Some(scalar) ==> scalar@ == p256_secret(seed@) && legacy_draw(seed@)
            && p256_public(scalar@, false) is Some,
{
    if seed.len() != SEED_LEN {
        None
    } else {
        Some(p256_generate(seed))
    }
}

/// First step of `hello`: negotiates the suite, checks the length of the
/// client's key and, on the hybrid path, that the identifier is free; then
/// draws seeds from the system's generator and takes the suite's first step
/// with the keys that belong to them. The result is that of [`hello_begun`]
/// on what the generator gave, of which [`drawn`] holds: so a call that
/// passes the checks fails only when the generator gives nothing, or, on the
/// legacy path, when the client's key is no point of the curve.
pub fn hello_begin(
    store: &mut LruStore,
    user_pubkey: &Vec<u8>,
    uuid: SessionId,
    supported_suites: &Vec<String>,
) -> (r: Result<PendingHello, RpcError>)
    requires
        old(store).wf(),
    ensures
        final(store).wf(),
        r matches Ok(pending) ==> pending.wf(),
        exists|first: Option<Seq<u8>>, second: Option<Seq<u8>>|
            drawn(select(texts(supported_suites@)), first, second) && (begun(r), final(store)@)
                == hello_begun(
                old(store)@,
                user_pubkey@,
                uuid,
                texts(supported_suites@),
                first,
                second,
            ),
        select(texts(supported_suites@)) == Some(Suite::LegacyP256) && user_pubkey@.len()
            == P256_COMPRESSED_LEN && p256_point(user_pubkey@, true) is Some ==> r is Ok || begun(r)
            == Err::<PendingView, Failure>(no_entropy()),
        select(texts(supported_suites@)) == Some(Suite::HybridPqxdhV1) && user_pubkey@.len()
            == X25519_LEN && !old(store)@.holds(uuid) ==> r is Ok || begun(r) == Err::<
            PendingView,
            Failure,
        >(no_entropy()),
{
    let ghost before = store@;
    let ghost advertised = texts(supported_suites@);
    let ghost none = None::<Seq<u8>>;
    let suite = match negotiate(supported_suites) {
        Ok(suite) => suite,
        Err(e) => {
            let r = Err(e);
            assert(drawn(select(advertised), none, none) && (begun(r), store@) == hello_begun(
                before,
                user_pubkey@,
                uuid,
                advertised,
                none,
                none,
            ));
            return r;
        },
    };
    match suite {
        Suite::LegacyP256 => {
            if user_pubkey.len() != P256_COMPRESSED_LEN {
                let r = Err(RpcError::invalid_request("P-256 public key must be 33 bytes"));
                assert(drawn(select(advertised), none, none) && (begun(r), store@) == hello_begun(
                    before,
                    user_pubkey@,
                    uuid,
                    advertised,
                    none,
                    none,
                ));
                return r;
            }
            let seed = match system_random_32() {
                Some(seed) => seed,
                None => {
                    let r = Err(RpcError::internal("Failed to gather entropy"));
                    assert(drawn(select(advertised), none, none) && (begun(r), store@)
                        == hello_begun(before, user_pubkey@, uuid, advertised, none, none));
                    return r;
                },
            };
            let secret = p256_generate(&seed);
            let r = hello_legacy_begin(user_pubkey, uuid, &secret);
            assert(drawn(select(advertised), Some(seed@), none) && (begun(r), store@)
                == hello_begun(before, user_pubkey@, uuid, advertised, Some(seed@), none));
            r
        },
        Suite::HybridPqxdhV1 => {
            if user_pubkey.len() != X25519_LEN {
                let r = Err(RpcError::invalid_request("X25519 public key must be 32 bytes"));
                assert(drawn(select(advertised), none, none) && (begun(r), store@) == hello_begun(
                    before,
                    user_pubkey@,
                    uuid,
                    advertised,
                    none,
                    none,
                ));
                return r;
            }
            if store.contains(&uuid) {
                let r = Err(RpcError::invalid_request("UUID already exists"));
                assert(drawn(select(advertised), none, none) && (begun(r), store@) == hello_begun(
                    before,
                    user_pubkey@,
                    uuid,
                    advertised,
                    none,
                    none,
                ));
                return r;
            }
            let x25519_secret = match system_random_32() {
                Some(secret) => secret,
                None => {
                    let r = Err(RpcError::internal("Failed to gather entropy"));
                    assert(drawn(select(advertised), none, none) && (begun(r), store@)
                        == hello_begun(before, user_pubkey@, uuid, advertised, none, none));
                    return r;
                },
            };
            let seed = match system_random_32() {
                Some(seed) => seed,
                None => {
                    let r = Err(RpcError::internal("Failed to gather entropy"));
                    assert(drawn(select(advertised), Some(x25519_secret@), none) && (
                        begun(r),
                        store@,
                    ) == hello_begun(
                        before,
                        user_pubkey@,
                        uuid,
                        advertised,
                        Some(x25519_secret@),
                        none,
                    ));
                    return r;
                },
            };
            let (decaps_key, encaps_key) = mlkem768_generate(&seed);
            let r = hello_hybrid_begin(
                store,
                user_pubkey,
                uuid,
                &x25519_secret,
                decaps_key,
                encaps_key,
            );
            assert(drawn(select(advertised), Some(x25519_secret@), Some(seed@)) && (
                begun(r),
                store@,
            ) == hello_begun(
                before,
                user_pubkey@,
                uuid,
                advertised,
                Some(x25519_secret@),
                Some(seed@),
            ));
            r
        },
    }
}

/// Last step of `hello`. With a document, a legacy session is stored now,
/// unless one exists under its identifier; a hybrid session is stored
/// already. Without one, the call fails with the attestor's reason, and the
/// pending hybrid session is removed.
pub fn hello_finish(
    store: &mut LruStore,
    pending: PendingHello,
    attestation: Result<Vec<u8>, String>,
) -> (r: Result<HelloResponse, RpcError>)
    requires
        old(store).wf(),
        pending.wf(),
    ensures
        final(store).wf(),
        (answered(r), final(store)@) == hello_finished(old(store)@, pending@, attested(attestation)),
        r matches Ok(response) ==> (response@.x25519_pubkey matches Some(key) ==> key.len()
            == X25519_LEN) && (response@.kyber_pubkey matches Some(key) ==> key.len()
            == MLKEM768_ENCAPS_KEY_LEN),
{
    match pending {
        PendingHello::Legacy { uuid, session_key, .. } => {
            let document = match attestation {
                Ok(document) => document,
                Err(reason) => {
                    return Err(RpcError::new(ErrorCode::InternalError, reason));
                },
            };
            match store.insert_new_agreement(uuid, KeyMaterial::LegacyP256(session_key)) {
                Ok(()) => {},
                Err(_) => {
                    return Err(RpcError::invalid_request("UUID already exists"));
                },
            }
            Ok(
                HelloResponse::new(
                    uuid,
                    document,
                    String::from_str(LEGACY_P256_NAME),
                    None,
                    None,
                ),
            )
        },
        PendingHello::Hybrid { uuid, x25519_pubkey, kyber_pubkey, .. } => {
            let document = match attestation {
                Ok(document) => document,
                Err(reason) => {
                    store.remove_agreement(&uuid);
                    return Err(RpcError::new(ErrorCode::InternalError, reason));
                },
            };
            Ok(
                HelloResponse::new(
                    uuid,
                    document,
                    String::from_str(HYBRID_PQXDH_V1_NAME),
                    Some(x25519_pubkey),
                    Some(kyber_pubkey),
                ),
            )
        },
    }
}

/// Second round of a hybrid handshake: decapsulates the client's ciphertext
/// with the pending session's key, derives the session key from both shared
/// secrets and promotes the session to complete. A ciphertext of the wrong
/// length, or an unknown identifier, leaves the store as it is; every other
/// failure removes the session.
pub fn key_exchange(store: &mut LruStore, uuid: SessionId, kyber_ciphertext: &Vec<u8>) -> (r:
    Result<String, RpcError>)
    requires
        old(store).wf(),
    ensures
        final(store).wf(),
        (replied(r), final(store)@) == key_exchanged(old(store)@, uuid, kyber_ciphertext@),
{
    if kyber_ciphertext.len() != MLKEM768_CIPHERTEXT_LEN {
        let got = to_decimal(kyber_ciphertext.len() as u64);
        let message = joined("Invalid Kyber ciphertext length: expected 1088, got ", got.as_str());
        return Err(RpcError::new(ErrorCode::InvalidRequest, message));
    }
    let ghost before = store@;
    proof {
        lemma_touch_keeps_contents(
            before,
            uuid,
            uuid,
            MaterialView::PqxdhComplete(Seq::<u8>::empty()),
        );
    }
    let material = match store.get_key_material(&uuid) {
        Some(material) => material,
        None => {
            return Err(RpcError::invalid_request("UUID not found"));
        },
    };
    let (x25519_shared, kyber_secret) = match material {
        KeyMaterial::PqxdhPending { x25519_shared, kyber_secret } => (x25519_shared, kyber_secret),
        _ => {
            store.remove_agreement(&uuid);
            return Err(RpcError::invalid_request("UUID is not in PQXDH pending state"));
        },
    };
    if kyber_secret.len() != MLKEM768_DECAPS_KEY_LEN {
        store.remove_agreement(&uuid);
        return Err(RpcError::internal("Invalid decapsulation key length"));
    }
    let kem_shared = match mlkem768_decapsulate(&kyber_secret, kyber_ciphertext) {
        Some(kem_shared) => kem_shared,
        None => {
            store.remove_agreement(&uuid);
            return Err(RpcError::internal("Decapsulation failed"));
        },
    };
    let session_key = match derive_session_key(&x25519_shared, &kem_shared) {
        Some(session_key) => session_key,
        None => {
            store.remove_agreement(&uuid);
            return Err(RpcError::internal("HKDF expansion failed"));
        },
    };
    proof {
        lemma_touch_keeps_contents(before, uuid, uuid, MaterialView::PqxdhComplete(session_key@));
    }
    match store.update_key_material(&uuid, KeyMaterial::PqxdhComplete(session_key)) {
        Ok(()) => Ok(String::from_str(KEY_EXCHANGE_COMPLETE)),
        Err(_) => {
            store.remove_agreement(&uuid);
            Err(RpcError::internal("Failed to update key material"))
        },
    }
}

/// The key of every hybrid session that `key_exchange` completes is
/// HKDF-SHA-256 with a salt of 32 zero bytes, the input keying material
/// `0xFF` × 32 ‖ X25519 secret ‖ KEM secret, the fixed `info` text, and 32
/// bytes of output; the secrets are those of the pending session and of the
/// decapsulated ciphertext.
pub proof fn lemma_completed_key_is_hkdf_of_both_secrets(
    store: StoreView,
    uuid: SessionId,
    ciphertext: Seq<u8>,
)
    requires
        store.wf(),
        key_exchanged(store, uuid, ciphertext).0 is Ok,
    ensures
        ({
            &&& store.lookup(uuid) matches Some(
                MaterialView::PqxdhPending { x25519_shared, kyber_secret },
            )
            &&& mlkem768_decapsulated(kyber_secret, ciphertext) matches Some(kem_shared)
            &&& hkdf_sha256(
                Seq::new(32, |i: int| 0u8),
                Seq::new(32, |i: int| 0xffu8) + x25519_shared + kem_shared,
                vstd::utf8::encode_utf8("Self-PQXDH-1_X25519_SHA-256_ML-KEM-768"@),
                32,
            ) matches Some(session_key)
            &&& key_exchanged(store, uuid, ciphertext).1.lookup(uuid) == Some(
                MaterialView::PqxdhComplete(session_key),
            )
            &&& session_key == pqxdh_session_key(x25519_shared, kem_shared)->0
        }),
{
    let material = store.lookup(uuid)->0;
    match material {
        MaterialView::PqxdhPending { x25519_shared, kyber_secret } => {
            let kem_shared = mlkem768_decapsulated(kyber_secret, ciphertext)->0;
            let session_key = pqxdh_session_key(x25519_shared, kem_shared)->0;
            lemma_lookup_after_change(
                store,
                uuid,
                uuid,
                MaterialView::PqxdhComplete(session_key),
            );
        },
        _ => {},
    }
}

/// The key of every legacy session is the X-coordinate that ECDH on P-256
/// yields for the server's secret scalar and the client's public key: it is
/// what the first step computes, what the last step stores, and, where the
/// store has room for a session, what is found under the session's identifier.
pub proof fn lemma_legacy_key_is_ecdh_x_coordinate(
    store: StoreView,
    user_pubkey: Seq<u8>,
    uuid: SessionId,
    secret: Seq<u8>,
    document: Seq<u8>,
)
    requires
        store.wf(),
        legacy_begun(user_pubkey, uuid, secret) is Ok,
        hello_finished(store, legacy_begun(user_pubkey, uuid, secret)->Ok_0, Ok(document)).0 is Ok,
    ensures
        ({
            let finished = hello_finished(
                store,
                legacy_begun(user_pubkey, uuid, secret)->Ok_0,
                Ok(document),
            );
            &&& p256_shared(secret, user_pubkey) matches Some(x_coordinate)
            &&& legacy_begun(user_pubkey, uuid, secret)->Ok_0 matches PendingView::Legacy {
                session_key,
                ..
            }
            &&& session_key == x_coordinate
            &&& finished.1 == store.with_new(uuid, MaterialView::LegacyP256(x_coordinate))
            &&& store.capacity > 0 ==> finished.1.lookup(uuid) == Some(
                MaterialView::LegacyP256(x_coordinate),
            )
        }),
{
    let x_coordinate = p256_shared(secret, user_pubkey)->0;
    lemma_lookup_after_change(store, uuid, uuid, MaterialView::LegacyP256(x_coordinate));
}

/// An answer to `hello` carries the server's X25519 and ML-KEM public keys
/// exactly when the hybrid suite was selected, and names one of the two suites.
pub proof fn lemma_public_keys_accompany_hybrid_suite(
    store: StoreView,
    pending: PendingView,
    attestation: Result<Seq<u8>, Seq<char>>,
)
    requires
        hello_finished(store, pending, attestation).0 is Ok,
    ensures
        ({
            let response = hello_finished(store, pending, attestation).0->Ok_0;
            &&& response.selected_suite == HYBRID_PQXDH_V1_NAME@ || response.selected_suite
                == LEGACY_P256_NAME@
            &&& response.x25519_pubkey is Some <==> response.selected_suite == HYBRID_PQXDH_V1_NAME@
            &&& response.kyber_pubkey is Some <==> response.selected_suite == HYBRID_PQXDH_V1_NAME@
        }),
{
    reveal_strlit("Self-PQXDH-1");
    reveal_strlit("legacy-p256");
    assert(HYBRID_PQXDH_V1_NAME@.len() == 12);
    assert(LEGACY_P256_NAME@.len() == 11);
}

/// `key_exchange` changes no session but the one it is called for; that one
/// it leaves as it is, or removes, or promotes from pending to complete: no
/// other transition is made.
pub proof fn lemma_key_exchange_only_promotes(
    store: StoreView,
    uuid: SessionId,
    ciphertext: Seq<u8>,
    other: SessionId,
)
    requires
        store.wf(),
    ensures
        ({
            let after = key_exchanged(store, uuid, ciphertext).1;
            &&& other != uuid ==> after.lookup(other) == store.lookup(other)
            &&& {
                ||| after.lookup(uuid) == store.lookup(uuid)
                ||| after.lookup(uuid) is None
                ||| store.lookup(uuid) matches Some(MaterialView::PqxdhPending { .. })
                    && after.lookup(uuid) matches Some(MaterialView::PqxdhComplete(_))
            }
        }),
{
    let after = key_exchanged(store, uuid, ciphertext).1;
    let unused = MaterialView::PqxdhComplete(Seq::<u8>::empty());
    lemma_removed_stays_absent(store, uuid, uuid, unused);
    lemma_lookup_after_change(store, uuid, other, unused);
    if key_exchanged(store, uuid, ciphertext).0 is Ok {
        lemma_completed_key_is_hkdf_of_both_secrets(store, uuid, ciphertext);
        match store.lookup(uuid)->0 {
            MaterialView::PqxdhPending { x25519_shared, kyber_secret } => {
                let kem_shared = mlkem768_decapsulated(kyber_secret, ciphertext)->0;
                let session_key = pqxdh_session_key(x25519_shared, kem_shared)->0;
                lemma_lookup_after_change(
                    store,
                    uuid,
                    other,
                    MaterialView::PqxdhComplete(session_key),
                );
            },
            _ => {},
        }
    }
}

} // verus!
