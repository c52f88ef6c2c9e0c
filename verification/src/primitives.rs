//! The cryptographic primitives the handshake is built from. Each function here
//! hands plain bytes to one outside crate and plain bytes back; its contract is
//! believed, not proved, and names the result where the result is a function of
//! the arguments.
use aes_gcm::aead::Aead;
use aes_gcm::KeyInit;
use base64::Engine;
use ml_kem::kem::Decapsulate;
use ml_kem::{EncodedSizeUser, KemCore};
use p256::elliptic_curve::sec1::ToEncodedPoint;
use rand::SeedableRng;
use rand_core::RngCore;
use vstd::prelude::*;

verus! {

/// Length of an X25519 scalar, public key and shared secret.
pub const X25519_LEN: usize = 32;

/// Length of a P-256 scalar and of the X-coordinate that ECDH yields.
pub const P256_SCALAR_LEN: usize = 32;

/// Length of an encoded ML-KEM-768 decapsulation key.
pub const MLKEM768_DECAPS_KEY_LEN: usize = 2400;

/// Length of an encoded ML-KEM-768 encapsulation key.
pub const MLKEM768_ENCAPS_KEY_LEN: usize = 1184;

/// Length of the seed of a generator of ephemeral keys.
pub const SEED_LEN: usize = 32;

/// Length of an AES-GCM tag.
pub const GCM_TAG_LEN: usize = 16;

/// Length of a hyphenated UUID.
pub const UUID_TEXT_LEN: usize = 36;

/// Length of an ML-KEM-768 ciphertext.
pub const MLKEM768_CIPHERTEXT_LEN: usize = 1088;

/// Length of an AES-256-GCM key.
pub const AES256_KEY_LEN: usize = 32;

/// Length of an AES-GCM nonce.
pub const GCM_NONCE_LEN: usize = 12;

/// Longest output HKDF-SHA-256 can expand to: 255 blocks of 32 bytes.
pub const HKDF_SHA256_MAX_LEN: usize = 8160;

/// Longest input handed to the Base64 encoder.
pub const BASE64_MAX_INPUT: usize = 0x4000_0000;

/// The X25519 public key that belongs to a secret scalar.
pub uninterp spec fn x25519_public(secret: Seq<u8>) -> Seq<u8>;

/// The X25519 shared secret of a secret scalar and a peer's public key.
pub uninterp spec fn x25519_shared(secret: Seq<u8>, peer: Seq<u8>) -> Seq<u8>;

/// The P-256 secret scalar, in big-endian bytes, that key generation draws
/// from a generator seeded with `seed`.
pub uninterp spec fn p256_secret(seed: Seq<u8>) -> Seq<u8>;

/// The SEC1 encoding, compressed or not, of the P-256 public key that belongs
/// to a big-endian secret scalar; nothing when the bytes are no valid scalar.
pub uninterp spec fn p256_public(secret: Seq<u8>, compress: bool) -> Option<Seq<u8>>;

/// The SEC1 encoding, compressed or not, of the P-256 point that `encoded`
/// holds; nothing when `encoded` holds no point of the curve.
pub uninterp spec fn p256_point(encoded: Seq<u8>, compress: bool) -> Option<Seq<u8>>;

/// The X-coordinate of the product of a secret scalar and a peer's point on
/// P-256; nothing when either does not parse.
pub uninterp spec fn p256_shared(secret: Seq<u8>, peer: Seq<u8>) -> Option<Seq<u8>>;

/// The ML-KEM-768 key pair that key generation draws from a generator seeded
/// with `seed`: the encoded decapsulation key, then the encoded encapsulation
/// key that belongs to it.
pub uninterp spec fn mlkem768_keypair(seed: Seq<u8>) -> (Seq<u8>, Seq<u8>);

/// The shared key that ML-KEM-768 decapsulation recovers from a ciphertext.
pub uninterp spec fn mlkem768_decapsulated(decaps_key: Seq<u8>, ciphertext: Seq<u8>) -> Option<
    Seq<u8>,
>;

/// HKDF-SHA-256 (extract, then expand) to `len` bytes.
pub uninterp spec fn hkdf_sha256(salt: Seq<u8>, ikm: Seq<u8>, info: Seq<u8>, len: nat) -> Option<
    Seq<u8>,
>;

/// The plaintext that AES-256-GCM recovers from a ciphertext followed by its
/// tag, without associated data; nothing when decryption fails.
pub uninterp spec fn aes256_gcm_opened(key: Seq<u8>, nonce: Seq<u8>, sealed: Seq<u8>) -> Option<
    Seq<u8>,
>;

/// The Base64 text of `data` in the standard alphabet, with padding.
pub uninterp spec fn base64_standard(data: Seq<u8>) -> Seq<char>;

/// The Base64 text of `data` in the URL-safe alphabet, without padding.
pub uninterp spec fn base64_url_unpadded(data: Seq<u8>) -> Seq<char>;

/// The hyphenated lower-case text of a UUID given as a 128-bit number.
pub uninterp spec fn uuid_hyphenated(id: u128) -> Seq<char>;

/// Length of a SEC1-encoded P-256 point other than the identity: a tag byte
/// and one coordinate when compressed, a tag byte and two when not.
pub open spec fn sec1_len(compress: bool) -> nat {
    if compress {
        33
    } else {
        65
    }
}

/// What an optional byte vector holds, as a mathematical value.
pub open spec fn bytes_of(r: Option<Vec<u8>>) -> Option<Seq<u8>> {
    match r {
        Some(bytes) => Some(bytes@),
        None => None,
    }
}

/// `rand_core::OsRng::try_fill_bytes` on a buffer of 32 bytes: the bytes the
/// operating system gave, or nothing when it gave none. Nothing is claimed of
/// the bytes but their number.
#[verifier::external_body]
pub(crate) fn system_random_32() -> (r: Option<Vec<u8>>)
    ensures
        r matches Some(bytes) ==> bytes@.len() == 32,
{
    let mut bytes = [0u8; 32];
    match rand_core::OsRng.try_fill_bytes(&mut bytes) {
        Ok(()) => Some(bytes.to_vec()),
        Err(_) => None,
    }
}

/// `x25519_dalek::PublicKey::from(&StaticSecret)`: the public key of a secret
/// scalar, 32 bytes.
#[verifier::external_body]
pub(crate) fn x25519_public_key(secret: &Vec<u8>) -> (public: Vec<u8>)
    requires
        secret@.len() == X25519_LEN,
    ensures
        public@ == x25519_public(secret@),
        public@.len() == X25519_LEN,
{
    let mut scalar = [0u8; 32];
    scalar.copy_from_slice(secret);
    x25519_dalek::PublicKey::from(&x25519_dalek::StaticSecret::from(scalar)).as_bytes().to_vec()
}

/// `x25519_dalek::StaticSecret::diffie_hellman`: the shared secret of a secret
/// scalar and a peer's public key, 32 bytes. Every 32-byte string is accepted
/// as a peer key.
#[verifier::external_body]
pub(crate) fn x25519_diffie_hellman(secret: &Vec<u8>, peer: &Vec<u8>) -> (shared: Vec<u8>)
    requires
        secret@.len() == X25519_LEN,
        peer@.len() == X25519_LEN,
    ensures
        shared@ == x25519_shared(secret@, peer@),
        shared@.len() == X25519_LEN,
{
    let mut scalar = [0u8; 32];
    scalar.copy_from_slice(secret);
    let mut point = [0u8; 32];
    point.copy_from_slice(peer);
    let theirs = x25519_dalek::PublicKey::from(point);
    x25519_dalek::StaticSecret::from(scalar).diffie_hellman(&theirs).as_bytes().to_vec()
}

/// `p256::SecretKey::random` with `rand::rngs::StdRng::from_seed(seed)`: the
/// big-endian bytes of the secret key drawn from that generator, 32 of them.
/// The generator is a function of its seed and cannot fail; the key is a
/// non-zero scalar below the group order, so `p256::SecretKey::from_slice`
/// reads it back and it has a public key.
#[verifier::external_body]
pub(crate) fn p256_generate(seed: &Vec<u8>) -> (secret: Vec<u8>)
    requires
        seed@.len() == SEED_LEN,
    ensures
        secret@ == p256_secret(seed@),
        secret@.len() == P256_SCALAR_LEN,
        p256_public(secret@, true) is Some,
        p256_public(secret@, false) is Some,
{
    let mut bytes = [0u8; 32];
    bytes.copy_from_slice(seed);
    let mut generator = rand::rngs::StdRng::from_seed(bytes);
    p256::SecretKey::random(&mut generator).to_bytes().to_vec()
}

/// `p256::SecretKey::public_key`, SEC1-encoded by `to_encoded_point`: the
/// public key of the scalar that `p256::SecretKey::from_slice` reads from
/// `secret`, or nothing when it reads none. A public key is never the
/// identity, so its encoding has 33 bytes when compressed and 65 when not.
#[verifier::external_body]
pub(crate) fn p256_public_key(secret: &Vec<u8>, compress: bool) -> (public: Option<Vec<u8>>)
    ensures
        bytes_of(public) == p256_public(secret@, compress),
        public matches Some(bytes) ==> bytes@.len() == sec1_len(compress),
{
    match p256::SecretKey::from_slice(secret) {
        Ok(key) => Some(key.public_key().to_encoded_point(compress).as_bytes().to_vec()),
        Err(_) => None,
    }
}

/// `p256::PublicKey::from_sec1_bytes`, encoded again by `to_encoded_point`:
/// the point that `encoded` holds, or nothing when it holds no point of the
/// curve or the identity. The encoding has 33 bytes when compressed and 65
/// when not.
#[verifier::external_body]
pub(crate) fn p256_parse_point(encoded: &Vec<u8>, compress: bool) -> (point: Option<Vec<u8>>)
    ensures
        bytes_of(point) == p256_point(encoded@, compress),
        point matches Some(bytes) ==> bytes@.len() == sec1_len(compress),
{
    match p256::PublicKey::from_sec1_bytes(encoded) {
        Ok(key) => Some(key.to_encoded_point(compress).as_bytes().to_vec()),
        Err(_) => None,
    }
}

/// `p256::ecdh::diffie_hellman`: the raw shared secret, which is the 32-byte
/// X-coordinate of the shared point. There is one exactly when
/// `p256::SecretKey::from_slice` reads the scalar and
/// `p256::PublicKey::from_sec1_bytes` reads the peer's point, that is, when
/// the scalar has a public key and the point an encoding.
#[verifier::external_body]
pub(crate) fn p256_diffie_hellman(secret: &Vec<u8>, peer: &Vec<u8>) -> (shared: Option<Vec<u8>>)
    ensures
        bytes_of(shared) == p256_shared(secret@, peer@),
        shared matches Some(bytes) ==> bytes@.len() == P256_SCALAR_LEN,
        shared is Some == (p256_public(secret@, true) is Some && p256_point(peer@, true) is Some),
{
    match (p256::SecretKey::from_slice(secret), p256::PublicKey::from_sec1_bytes(peer)) {
        (Ok(ours), Ok(theirs)) => {
            let point = p256::ecdh::diffie_hellman(ours.to_nonzero_scalar(), theirs.as_affine());
            Some(point.raw_secret_bytes().to_vec())
        },
        _ => None,
    }
}

/// `ml_kem::MlKem768::generate` with `rand::rngs::StdRng::from_seed(seed)`:
/// the encodings of the decapsulation key (2400 bytes) and of its
/// encapsulation key (1184 bytes) drawn from that generator, in this order.
/// The generator is a function of its seed and cannot fail.
#[verifier::external_body]
pub(crate) fn mlkem768_generate(seed: &Vec<u8>) -> (keys: (Vec<u8>, Vec<u8>))
    requires
        seed@.len() == SEED_LEN,
    ensures
        (keys.0@, keys.1@) == mlkem768_keypair(seed@),
        keys.0@.len() == MLKEM768_DECAPS_KEY_LEN,
        keys.1@.len() == MLKEM768_ENCAPS_KEY_LEN,
{
    let mut bytes = [0u8; 32];
    bytes.copy_from_slice(seed);
    let mut generator = rand::rngs::StdRng::from_seed(bytes);
    let (decaps_key, encaps_key) = ml_kem::MlKem768::generate(&mut generator);
    (decaps_key.as_bytes().to_vec(), encaps_key.as_bytes().to_vec())
}

/// `Decapsulate::decapsulate` on the key that `EncodedSizeUser::from_bytes`
/// reads: the 32-byte shared key. Decapsulation has an error in its type and
/// never returns one: a ciphertext that does not fit the key yields a key
/// derived from the ciphertext instead.
#[verifier::external_body]
pub(crate) fn mlkem768_decapsulate(decaps_key: &Vec<u8>, ciphertext: &Vec<u8>) -> (shared: Option<
    Vec<u8>,
>)
    requires
        decaps_key@.len() == MLKEM768_DECAPS_KEY_LEN,
        ciphertext@.len() == MLKEM768_CIPHERTEXT_LEN,
    ensures
        bytes_of(shared) == mlkem768_decapsulated(decaps_key@, ciphertext@),
        shared matches Some(bytes) ==> bytes@.len() == 32,
        shared is Some,
{
    let encoded: ml_kem::Encoded<<ml_kem::MlKem768 as KemCore>::DecapsulationKey> =
        decaps_key.as_slice().try_into().unwrap();
    let key = <ml_kem::MlKem768 as KemCore>::DecapsulationKey::from_bytes(&encoded);
    let ct: ml_kem::Ciphertext<ml_kem::MlKem768> = ciphertext.as_slice().try_into().unwrap();
    match key.decapsulate(&ct) {
        Ok(shared) => Some(shared.to_vec()),
        Err(_) => None,
    }
}

/// `hkdf::Hkdf::<Sha256>::new` followed by `expand`: `len` bytes of output
/// keying material. The expansion fails only when `len` is over 255 blocks.
#[verifier::external_body]
pub(crate) fn hkdf_sha256_expand(salt: &Vec<u8>, ikm: &Vec<u8>, info: &Vec<u8>, len: usize) -> (okm:
    Option<Vec<u8>>)
    ensures
        bytes_of(okm) == hkdf_sha256(salt@, ikm@, info@, len as nat),
        okm matches Some(bytes) ==> bytes@.len() == len,
        len <= HKDF_SHA256_MAX_LEN ==> okm is Some,
{
    let kdf = hkdf::Hkdf::<sha2::Sha256>::new(Some(salt.as_slice()), ikm);
    let mut okm = vec![0u8; len];
    match kdf.expand(info, &mut okm) {
        Ok(()) => Some(okm),
        Err(_) => None,
    }
}

/// `Aes256Gcm::decrypt` (trait `aes_gcm::aead::Aead`) without associated
/// data: the plaintext of a ciphertext followed by its 16-byte tag, or nothing
/// when decryption reports an error (the input is shorter than a tag, or the
/// tag does not authenticate it). The plaintext is as long as the input
/// without its tag.
#[verifier::external_body]
#[allow(deprecated)]
pub(crate) fn aes256_gcm_decrypt(key: &[u8], nonce: &[u8], sealed: &[u8]) -> (plain: Option<Vec<u8>>)
    requires
        key@.len() == AES256_KEY_LEN,
        nonce@.len() == GCM_NONCE_LEN,
    ensures
        bytes_of(plain) == aes256_gcm_opened(key@, nonce@, sealed@),
        plain matches Some(bytes) ==> bytes@.len() + GCM_TAG_LEN == sealed@.len(),
{
    let cipher = aes_gcm::Aes256Gcm::new(aes_gcm::Key::<aes_gcm::Aes256Gcm>::from_slice(key));
    match cipher.decrypt(aes_gcm::Nonce::from_slice(nonce), sealed) {
        Ok(plain) => Some(plain),
        Err(_) => None,
    }
}

/// `Engine::encode` of `base64::engine::general_purpose::STANDARD`.
#[verifier::external_body]
pub(crate) fn base64_encode(data: &Vec<u8>) -> (text: String)
    requires
        data@.len() <= BASE64_MAX_INPUT,
    ensures
        text@ == base64_standard(data@),
{
    base64::engine::general_purpose::STANDARD.encode(data)
}

/// `Engine::encode` of `base64::engine::general_purpose::URL_SAFE_NO_PAD`.
#[verifier::external_body]
pub(crate) fn base64_url_encode(data: &Vec<u8>) -> (text: String)
    requires
        data@.len() <= BASE64_MAX_INPUT,
    ensures
        text@ == base64_url_unpadded(data@),
{
    base64::engine::general_purpose::URL_SAFE_NO_PAD.encode(data)
}

/// `uuid::Uuid::from_u128` shown by its `Display`: eight, four, four, four and
/// twelve lower-case hexadecimal digits between hyphens, 36 characters in all.
#[verifier::external_body]
pub(crate) fn uuid_to_string(id: u128) -> (text: String)
    ensures
        text@ == uuid_hyphenated(id),
        text@.len() == UUID_TEXT_LEN,
        text@[8] == '-' && text@[13] == '-' && text@[18] == '-' && text@[23] == '-',
{
    uuid::Uuid::from_u128(id).to_string()
}

/// `String::from_utf8`: the text that `bytes` encode, or nothing when they are
/// not UTF-8.
#[verifier::external_body]
pub(crate) fn string_from_utf8(bytes: Vec<u8>) -> (text: Option<String>)
    ensures
        text is Some == vstd::utf8::valid_utf8(bytes@),
        text matches Some(s) ==> s@ == vstd::utf8::decode_utf8(bytes@),
{
    match String::from_utf8(bytes) {
        Ok(text) => Some(text),
        Err(_) => None,
    }
}

} // verus!
