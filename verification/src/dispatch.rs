use crate::error::{ErrorCode, Failure, RpcError};
use crate::handshake::replied;
use crate::primitives::{uuid_hyphenated, uuid_to_string, GCM_NONCE_LEN};
use crate::store::{lemma_touch_keeps_contents, LruStore, MaterialView, SessionId, StoreView};
use crate::text::{joined, texts};
use crate::types::{ProofFamily, SubmitRequest};
use crate::utils::{decrypt, decrypted};
use vstd::prelude::*;
use vstd::string::*;

verus! {

/// The answer to a health probe.
pub fn health() -> (answer: String)
    ensures
        answer@ == "OK"@,
{
    String::from_str("OK")
}

/// Which requests a deployment accepts: those of one family, or all.
#[derive(Debug, Clone, Copy, PartialEq, Eq, Structural)]
pub enum Policy {
    Register,
    Dsc,
    Disclose,
    Cherrypick,
}

impl Policy {
    /// Whether a request of `family` is accepted.
    pub open spec fn spec_allows(self, family: ProofFamily) -> bool {
        match self {
            Policy::Register => family == ProofFamily::Register,
            Policy::Dsc => family == ProofFamily::Dsc,
            Policy::Disclose => family == ProofFamily::Disclose,
            Policy::Cherrypick => true,
        }
    }

    /// The family named to a client whose request is refused.
    pub open spec fn spec_allowed_proof_type(self) -> Seq<char> {
        match self {
            Policy::Register => "register"@,
            Policy::Dsc => "dsc"@,
            Policy::Disclose => "disclose"@,
            Policy::Cherrypick => "disclose"@,
        }
    }

    /// The policy that a deployment names: `register`, `dsc`, `disclose` or
    /// `cherrypick`.
    pub open spec fn spec_from_name(name: Seq<char>) -> Option<Policy> {
        if name == "register"@ {
            Some(Policy::Register)
        } else if name == "dsc"@ {
            Some(Policy::Dsc)
        } else if name == "disclose"@ {
            Some(Policy::Disclose)
        } else if name == "cherrypick"@ {
            Some(Policy::Cherrypick)
        } else {
            None
        }
    }

    pub fn from_name(name: &str) -> (p: Option<Policy>)
        ensures
            p == Policy::spec_from_name(name@),
    {
        let name = String::from_str(name);
        if name == String::from_str("register") {
            Some(Policy::Register)
        } else if name == String::from_str("dsc") {
            Some(Policy::Dsc)
        } else if name == String::from_str("disclose") {
            Some(Policy::Disclose)
        } else if name == String::from_str("cherrypick") {
            Some(Policy::Cherrypick)
        } else {
            None
        }
    }

    pub fn allows(&self, family: ProofFamily) -> (b: bool)
        ensures
            b == self.spec_allows(family),
    {
        match self {
            Policy::Register => family == ProofFamily::Register,
            Policy::Dsc => family == ProofFamily::Dsc,
            Policy::Disclose => family == ProofFamily::Disclose,
            Policy::Cherrypick => true,
        }
    }

    pub fn allowed_proof_type(&self) -> (n: &'static str)
        ensures
            n@ == self.spec_allowed_proof_type(),
    {
        match self {
            Policy::Register => "register",
            Policy::Dsc => "dsc",
            Policy::Disclose => "disclose",
            Policy::Cherrypick => "disclose",
        }
    }
}

/// What a client is told whose request the policy refuses.
pub open spec fn refused_by_policy(policy: Policy) -> Seq<char> {
    "This endpoint only allows "@ + policy.spec_allowed_proof_type() + " inputs"@
}

/// What a client is told whose circuit is not in the catalog.
pub open spec fn unknown_circuit(name: Seq<char>) -> Seq<char> {
    "Could not find the given circuit name: "@ + name
}

/// Whether `name` is in the catalog of circuits.
pub fn catalog_holds(catalog: &Vec<String>, name: &String) -> (b: bool)
    ensures
        b == texts(catalog@).contains(name@),
{
    let mut i: usize = 0;
    while i < catalog.len()
        invariant
            i <= catalog.len(),
            forall|j: int| 0 <= j < i ==> texts(catalog@)[j] != name@,
        decreases catalog.len() - i,
    {
        if catalog[i] == *name {
            assert(texts(catalog@)[i as int] == name@);
            return true;
        }
        i = i + 1;
    }
    false
}

/// First step of a submission: the decrypted text of the envelope and the
/// store after it. A session without a final key, a nonce that is not 12 bytes
/// long, a tag that does not authenticate and a plaintext that is not UTF-8
/// all end the session.
pub open spec fn submit_opened(
    store: StoreView,
    uuid: SessionId,
    nonce: Seq<u8>,
    cipher_text: Seq<u8>,
    auth_tag: Seq<u8>,
) -> (Result<Seq<char>, Failure>, StoreView) {
    match store.lookup(uuid) {
        Some(material) if material.session_key() is Some => {
            if nonce.len() != GCM_NONCE_LEN {
                (Err(Failure::invalid_request("Failed to decrypt text"@)), store.without(uuid))
            } else {
                match decrypted(material.session_key()->0, cipher_text, auth_tag, nonce) {
                    Ok(text) => (Ok(text), store.touched(uuid)),
                    Err(_) => (
                        Err(Failure::invalid_request("Failed to decrypt text"@)),
                        store.without(uuid),
                    ),
                }
            }
        },
        _ => (Err(Failure::invalid_request("UUID not found"@)), store.without(uuid)),
    }
}

/// Second step of a submission, on the parsed payload (none when it did not
/// parse): whether the request passes the policy and names a known circuit,
/// and the store after it. Every refusal ends the session.
pub open spec fn submit_vetted(
    store: StoreView,
    uuid: SessionId,
    parsed: Option<SubmitRequest>,
    policy: Policy,
    catalog: Seq<Seq<char>>,
) -> (Result<SubmitRequest, Failure>, StoreView) {
    match parsed {
        None => (
            Err(Failure::invalid_request("Failed to parse proof request"@)),
            store.without(uuid),
        ),
        Some(request) => {
            if !policy.spec_allows(request.proof_request_type.spec_proof_type().spec_family()) {
                (Err(Failure::invalid_request(refused_by_policy(policy))), store.without(uuid))
            } else if !catalog.contains(request.proof_request_type.spec_circuit().name@) {
                (
                    Err(
                        Failure::invalid_request(
                            unknown_circuit(request.proof_request_type.spec_circuit().name@),
                        ),
                    ),
                    store.without(uuid),
                )
            } else {
                (Ok(request), store)
            }
        },
    }
}

/// Last step of a submission, once the job was handed on or could not be:
/// the session ends either way; the answer is its identifier, or the reason
/// as an internal error.
pub open spec fn submit_finished(store: StoreView, uuid: SessionId, handed_on: Result<(), String>)
    -> (Result<Seq<char>, Failure>, StoreView) {
    match handed_on {
        Ok(()) => (Ok(uuid_hyphenated(uuid)), store.without(uuid)),
        Err(reason) => (Err(Failure::internal(reason@)), store.without(uuid)),
    }
}

/// What the second step returned, as a mathematical value.
pub open spec fn vetted(r: Result<SubmitRequest, RpcError>) -> Result<SubmitRequest, Failure> {
    match r {
        Ok(request) => Ok(request),
        Err(e) => Err(e@),
    }
}

/// First step of a submission: recovers the session key and opens the
/// envelope with it.
pub fn submit_open(
    store: &mut LruStore,
    uuid: SessionId,
    nonce: &Vec<u8>,
    cipher_text: Vec<u8>,
    auth_tag: &Vec<u8>,
) -> (r: Result<String, RpcError>)
    requires
        old(store).wf(),
    ensures
        final(store).wf(),
        (replied(r), final(store)@) == submit_opened(
            old(store)@,
            uuid,
            nonce@,
            cipher_text@,
            auth_tag@,
        ),
{
    proof {
        lemma_touch_keeps_contents(
            store@,
            uuid,
            uuid,
            MaterialView::PqxdhComplete(Seq::<u8>::empty()),
        );
    }
    let key = match store.get_shared_secret(&uuid) {
        Some(key) => key,
        None => {
            store.remove_agreement(&uuid);
            return Err(RpcError::invalid_request("UUID not found"));
        },
    };
    if nonce.len() != GCM_NONCE_LEN {
        store.remove_agreement(&uuid);
        return Err(RpcError::invalid_request("Failed to decrypt text"));
    }
    let mut key_bytes = [0u8; 32];
    let mut i: usize = 0;
    while i < 32
        invariant
            i <= 32,
            key@.len() == 32,
            forall|j: int| 0 <= j < i ==> key_bytes@[j] == key@[j],
        decreases 32 - i,
    {
        key_bytes[i] = key[i];
        i = i + 1;
    }
    assert(key_bytes@ =~= key@);
    match decrypt(key_bytes, cipher_text, auth_tag.as_slice(), nonce.as_slice()) {
        Ok(text) => Ok(text),
        Err(_) => {
            store.remove_agreement(&uuid);
            Err(RpcError::invalid_request("Failed to decrypt text"))
        },
    }
}

/// Second step of a submission: enforces the deployment's policy and checks
/// that the circuit is known.
pub fn submit_vet(
    store: &mut LruStore,
    uuid: SessionId,
    parsed: Option<SubmitRequest>,
    policy: Policy,
    catalog: &Vec<String>,
) -> (r: Result<SubmitRequest, RpcError>)
    requires
        old(store).wf(),
    ensures
        final(store).wf(),
        (vetted(r), final(store)@) == submit_vetted(
            old(store)@,
            uuid,
            parsed,
            policy,
            texts(catalog@),
        ),
{
    let request = match parsed {
        Some(request) => request,
        None => {
            store.remove_agreement(&uuid);
            return Err(RpcError::invalid_request("Failed to parse proof request"));
        },
    };
    if !policy.allows(request.proof_request_type.proof_type().family()) {
        store.remove_agreement(&uuid);
        let head = joined("This endpoint only allows ", policy.allowed_proof_type());
        let message = joined(head.as_str(), " inputs");
        return Err(RpcError::new(ErrorCode::InvalidRequest, message));
    }
    if !catalog_holds(catalog, &request.proof_request_type.circuit().name) {
        store.remove_agreement(&uuid);
        let message = joined(
            "Could not find the given circuit name: ",
            request.proof_request_type.circuit().name.as_str(),
        );
        return Err(RpcError::new(ErrorCode::InvalidRequest, message));
    }
    Ok(request)
}

/// Last step of a submission: ends the session, which serves one job only,
/// and acknowledges with the session's identifier.
pub fn submit_finish(store: &mut LruStore, uuid: SessionId, handed_on: Result<(), String>) -> (r:
    Result<String, RpcError>)
    requires
        old(store).wf(),
    ensures
        final(store).wf(),
        (replied(r), final(store)@) == submit_finished(old(store)@, uuid, handed_on),
{
    store.remove_agreement(&uuid);
    match handed_on {
        Ok(()) => Ok(uuid_to_string(uuid)),
        Err(reason) => Err(RpcError::new(ErrorCode::InternalError, reason)),
    }
}

} // verus!
