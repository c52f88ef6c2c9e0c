use crate::bytes::append_bytes;
use crate::primitives::{aes256_gcm_decrypt, aes256_gcm_opened, string_from_utf8, GCM_NONCE_LEN};
use crate::text::joined;
use vstd::prelude::*;
use vstd::string::*;
use vstd::utf8::{decode_utf8, valid_utf8};

verus! {

/// What `decrypt` says when the tag does not authenticate the ciphertext.
pub const UNAUTHENTICATED: &'static str = "aead::Error";

/// What `decrypt` says when the plaintext is not UTF-8.
pub const NOT_UTF8: &'static str = "invalid utf-8 sequence";

/// The text of an envelope: the plaintext of `cipher_text` followed by
/// `auth_tag` under AES-256-GCM, read as UTF-8.
pub open spec fn decrypted(key: Seq<u8>, cipher_text: Seq<u8>, auth_tag: Seq<u8>, nonce: Seq<u8>)
    -> Result<Seq<char>, Seq<char>> {
    match aes256_gcm_opened(key, nonce, cipher_text + auth_tag) {
        None => Err(UNAUTHENTICATED@),
        Some(plain) => if valid_utf8(plain) {
            Ok(decode_utf8(plain))
        } else {
            Err(NOT_UTF8@)
        },
    }
}

/// What `decrypt` returned, as a mathematical value.
pub open spec fn text_or_reason(r: Result<String, String>) -> Result<Seq<char>, Seq<char>> {
    match r {
        Ok(text) => Ok(text@),
        Err(reason) => Err(reason@),
    }
}

/// Opens an envelope: verifies and decrypts `cipher_text` with its detached
/// tag under `key` and `nonce`, without associated data, and reads the
/// plaintext as UTF-8.
pub fn decrypt(key: [u8; 32], cipher_text: Vec<u8>, auth_tag: &[u8], nonce: &[u8]) -> (r: Result<
    String,
    String,
>)
    requires
        nonce@.len() == GCM_NONCE_LEN,
    ensures
        text_or_reason(r) == decrypted(key@, cipher_text@, auth_tag@, nonce@),
{
    let mut ciphertext_with_tag = cipher_text;
    append_bytes(&mut ciphertext_with_tag, auth_tag);
    let plaintext_bytes = match aes256_gcm_decrypt(
        key.as_slice(),
        nonce,
        ciphertext_with_tag.as_slice(),
    ) {
        Some(plaintext) => plaintext,
        None => {
            return Err(String::from_str(UNAUTHENTICATED));
        },
    };
    match string_from_utf8(plaintext_bytes) {
        Some(plaintext) => Ok(plaintext),
        None => Err(String::from_str(NOT_UTF8)),
    }
}

/// The working folder of the job with identifier `uuid`.
pub fn get_tmp_folder_path(uuid: &String) -> (path: String)
    ensures
        path@ == "./tmp_"@ + uuid@,
{
    joined("./tmp_", uuid.as_str())
}

} // verus!
