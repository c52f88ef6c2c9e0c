use crate::error::{ErrorCode, Failure, RpcError};
use crate::handshake::attested;
use crate::primitives::{
    base64_url_encode, base64_url_unpadded, p256_diffie_hellman, p256_parse_point, p256_point,
    p256_public, p256_public_key, p256_shared, BASE64_MAX_INPUT,
};
use crate::text::{decimal, joined3, texts, to_decimal, utf8_bytes};
use vstd::utf8::encode_utf8;
use vstd::prelude::*;
use vstd::string::*;

verus! {

/// Key agreement inside the enclave: the server's ephemeral key comes from the
/// secure module's entropy, and the module attests both public keys.
#[derive(Debug)]
pub struct AttestationServerImpl {
    fd: i32,
}

/// What the secure module is asked to attest.
#[derive(Debug)]
pub struct AttestationRequest {
    /// The client's public key, as it was sent.
    pub user_data: Vec<u8>,
    /// The server's public key, SEC1-encoded without compression.
    pub public_key: Vec<u8>,
}

/// Path of the UNIX-domain socket of the attestation daemon.
pub const ATTESTOR_SOCKET: &'static str = "/run/container_launcher/teeserver.sock";

/// Path of the token endpoint behind that socket.
pub const ATTESTOR_PATH: &'static str = "/v1/token";

/// The body of a request for a token that commits to `nonces`.
#[derive(Debug)]
pub struct TokenRequest {
    pub audience: String,
    pub token_type: String,
    pub nonces: Vec<String>,
}

/// Asks for a PKI token for the audience `USER` over `nonces`, in their order.
pub fn token_request(nonces: Vec<String>) -> (request: TokenRequest)
    ensures
        request.audience@ == "USER"@,
        request.token_type@ == "PKI"@,
        request.nonces == nonces,
{
    TokenRequest {
        audience: String::from_str("USER"),
        token_type: String::from_str("PKI"),
        nonces,
    }
}

/// What is attested for a client's key and the server's secret scalar.
pub open spec fn attestation_requested(user_pubkey: Seq<u8>, secret: Seq<u8>) -> Result<
    (Seq<u8>, Seq<u8>),
    Failure,
> {
    match p256_public(secret, false) {
        Some(public_key) => Ok((user_pubkey, public_key)),
        None => Err(Failure::internal("Failed to generate ephemeral key"@)),
    }
}

/// The answer to the client: the document together with the shared secret,
/// which is the X-coordinate of the ECDH point; the attestor's failure comes
/// before a key that does not parse.
pub open spec fn attestation_answered(
    user_pubkey: Seq<u8>,
    secret: Seq<u8>,
    attestation: Result<Seq<u8>, Seq<char>>,
) -> Result<(Seq<u8>, Seq<u8>), Failure> {
    match attestation {
        Err(reason) => Err(Failure::internal(reason)),
        Ok(document) => match p256_point(user_pubkey, false) {
            None => Err(Failure::invalid_params("Error"@)),
            Some(_) => match p256_shared(secret, user_pubkey) {
                Some(shared) => Ok((document, shared)),
                None => Err(Failure::internal("Failed to generate ephemeral key"@)),
            },
        },
    }
}

/// A pair of byte vectors or an error, as a mathematical value.
pub open spec fn pair_or_failure(r: Result<(Vec<u8>, Vec<u8>), RpcError>) -> Result<
    (Seq<u8>, Seq<u8>),
    Failure,
> {
    match r {
        Ok(pair) => Ok((pair.0@, pair.1@)),
        Err(e) => Err(e@),
    }
}

/// An attestation request or an error, as a mathematical value.
pub open spec fn request_or_failure(r: Result<AttestationRequest, RpcError>) -> Result<
    (Seq<u8>, Seq<u8>),
    Failure,
> {
    match r {
        Ok(request) => Ok((request.user_data@, request.public_key@)),
        Err(e) => Err(e@),
    }
}

impl AttestationServerImpl {
    pub closed spec fn spec_fd(&self) -> i32 {
        self.fd
    }

    pub fn new(fd: i32) -> (server: AttestationServerImpl)
        ensures
            server.spec_fd() == fd,
    {
        Self { fd }
    }

    /// The descriptor of the secure module's device.
    pub fn fd(&self) -> (fd: i32)
        ensures
            fd == self.spec_fd(),
    {
        self.fd
    }

    /// First step: what the module has to attest for this client, given the
    /// server's fresh secret scalar.
    pub fn attestation_request(&self, user_pubkey: &Vec<u8>, secret: &Vec<u8>) -> (r: Result<
        AttestationRequest,
        RpcError,
    >)
        ensures
            request_or_failure(r) == attestation_requested(user_pubkey@, secret@),
    {
        match p256_public_key(secret, false) {
            Some(public_key) => Ok(
                AttestationRequest { user_data: crate::bytes::copy_bytes(user_pubkey), public_key },
            ),
            None => Err(RpcError::internal("Failed to generate ephemeral key")),
        }
    }

    /// Last step, once the module has answered: the document and the secret
    /// shared with the client.
    pub fn get_attestation(
        &self,
        user_pubkey: &Vec<u8>,
        secret: &Vec<u8>,
        attestation: Result<Vec<u8>, String>,
    ) -> (r: Result<(Vec<u8>, Vec<u8>), RpcError>)
        ensures
            pair_or_failure(r) == attestation_answered(
                user_pubkey@,
                secret@,
                attested(attestation),
            ),
    {
        let document = match attestation {
            Ok(document) => document,
            Err(reason) => {
                return Err(RpcError::new(ErrorCode::InternalError, reason));
            },
        };
        if p256_parse_point(user_pubkey, false).is_none() {
            return Err(RpcError::invalid_params("Error"));
        }
        match p256_diffie_hellman(secret, user_pubkey) {
            Some(shared) => Ok((document, shared)),
            None => Err(RpcError::internal("Failed to generate ephemeral key")),
        }
    }
}

/// The header of an unsigned token.
pub const MOCK_TOKEN_HEADER: &'static str = "{\"alg\":\"RS256\",\"typ\":\"JWT\"}";

/// What stands in place of the signature of an unsigned token.
pub const MOCK_TOKEN_SIGNATURE: &'static str = "mock_sig";

/// How long an unsigned token claims to be valid, in seconds.
pub const MOCK_TOKEN_LIFETIME: u64 = 3600;

/// The nonces as JSON strings between commas. Their characters are taken as
/// they are.
pub open spec fn quoted_list(nonces: Seq<Seq<char>>) -> Seq<char>
    decreases nonces.len(),
{
    if nonces.len() == 0 {
        Seq::<char>::empty()
    } else if nonces.len() == 1 {
        "\""@ + nonces[0] + "\""@
    } else {
        quoted_list(nonces.drop_last()) + ",\""@ + nonces.last() + "\""@
    }
}

/// The claims of an unsigned token issued at `issued_at` seconds: the
/// nonces, the time of issue, and the time of expiry one lifetime later.
pub open spec fn mock_payload(nonces: Seq<Seq<char>>, issued_at: nat) -> Seq<char> {
    "{\"nonces\":["@ + quoted_list(nonces) + "],\"iat\":"@ + decimal(issued_at) + ",\"exp\":"@
        + decimal((issued_at + MOCK_TOKEN_LIFETIME) as nat) + "}"@
}

/// An unsigned token: header, claims and the stand-in for a signature, each
/// in URL-safe Base64 without padding, between dots.
pub open spec fn mock_token(nonces: Seq<Seq<char>>, issued_at: nat) -> Seq<char> {
    base64_url_unpadded(encode_utf8(MOCK_TOKEN_HEADER@)) + "."@ + base64_url_unpadded(
        encode_utf8(mock_payload(nonces, issued_at)),
    ) + "."@ + base64_url_unpadded(encode_utf8(MOCK_TOKEN_SIGNATURE@))
}

fn quoted(nonces: &Vec<String>) -> (text: String)
    ensures
        text@ == quoted_list(texts(nonces@)),
{
    let mut text = String::new();
    let mut i: usize = 0;
    while i < nonces.len()
        invariant
            i <= nonces.len(),
            text@ == quoted_list(texts(nonces@).take(i as int)),
        decreases nonces.len() - i,
    {
        let ghost before = texts(nonces@).take(i as int);
        let ghost after = texts(nonces@).take(i + 1);
        assert(after.drop_last() =~= before);
        assert(after.last() == nonces@[i as int]@);
        if i == 0 {
            text.append("\"");
            assert(before =~= Seq::<Seq<char>>::empty());
        } else {
            text.append(",\"");
        }
        text.append(nonces[i].as_str());
        text.append("\"");
        assert(text@ =~= quoted_list(after));
        i = i + 1;
    }
    assert(texts(nonces@).take(nonces@.len() as int) =~= texts(nonces@));
    text
}

/// Builds the unsigned token that stands for an attestation document where
/// no attestor is at hand. Nothing about it can be verified by a relying
/// party. Claims too long to encode are refused.
pub fn mock_attestation(nonces: &Vec<String>, issued_at: u64) -> (r: Result<Vec<u8>, String>)
    requires
        issued_at + MOCK_TOKEN_LIFETIME <= u64::MAX,
    ensures
        encode_utf8(mock_payload(texts(nonces@), issued_at as nat)).len() <= BASE64_MAX_INPUT ==> (r
            matches Ok(token) && token@ == encode_utf8(mock_token(texts(nonces@), issued_at as nat))),
        encode_utf8(mock_payload(texts(nonces@), issued_at as nat)).len() > BASE64_MAX_INPUT ==> (r
            matches Err(reason) && reason@ == "nonces too long"@),
{
    let mut payload = joined3("{\"nonces\":[", quoted(nonces).as_str(), "],\"iat\":");
    payload.append(to_decimal(issued_at).as_str());
    payload.append(",\"exp\":");
    payload.append(to_decimal(issued_at + MOCK_TOKEN_LIFETIME).as_str());
    payload.append("}");
    assert(payload@ =~= mock_payload(texts(nonces@), issued_at as nat));
    let payload_bytes = utf8_bytes(&payload);
    if payload_bytes.len() > BASE64_MAX_INPUT {
        return Err(String::from_str("nonces too long"));
    }
    let header_bytes = utf8_bytes(&String::from_str(MOCK_TOKEN_HEADER));
    let signature_bytes = utf8_bytes(&String::from_str(MOCK_TOKEN_SIGNATURE));
    proof {
        reveal_strlit("{\"alg\":\"RS256\",\"typ\":\"JWT\"}");
        reveal_strlit("mock_sig");
        lemma_utf8_is_short(MOCK_TOKEN_HEADER@);
        lemma_utf8_is_short(MOCK_TOKEN_SIGNATURE@);
    }
    let mut token = base64_url_encode(&header_bytes);
    token.append(".");
    token.append(base64_url_encode(&payload_bytes).as_str());
    token.append(".");
    token.append(base64_url_encode(&signature_bytes).as_str());
    assert(token@ =~= mock_token(texts(nonces@), issued_at as nat));
    Ok(utf8_bytes(&token))
}

/// A text takes at most four bytes for each of its characters in UTF-8.
proof fn lemma_utf8_is_short(text: Seq<char>)
    ensures
        encode_utf8(text).len() <= 4 * text.len(),
    decreases text.len(),
{
    if text.len() > 0 {
        lemma_utf8_is_short(text.drop_first());
    }
}

} // verus!
