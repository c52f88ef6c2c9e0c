use crate::error::{Failure, RpcError};
use crate::text::texts;
use vstd::prelude::*;
use vstd::string::*;

verus! {

/// A named combination of key-agreement primitives.
#[derive(Debug, Clone, Copy, PartialEq, Eq, Structural)]
pub enum Suite {
    /// Ephemeral ECDH on P-256; the raw shared X-coordinate is the session key.
    LegacyP256,
    /// X25519 and ML-KEM-768 combined through HKDF-SHA-256.
    HybridPqxdhV1,
}

/// Wire name of the P-256 suite.
pub const LEGACY_P256_NAME: &'static str = "legacy-p256";

/// Wire name of the hybrid suite.
pub const HYBRID_PQXDH_V1_NAME: &'static str = "Self-PQXDH-1";

impl Suite {
    /// The name of the suite on the wire.
    pub open spec fn spec_name(self) -> Seq<char> {
        match self {
            Suite::LegacyP256 => LEGACY_P256_NAME@,
            Suite::HybridPqxdhV1 => HYBRID_PQXDH_V1_NAME@,
        }
    }

    pub fn name(&self) -> (n: &'static str)
        ensures
            n@ == self.spec_name(),
    {
        match self {
            Suite::LegacyP256 => LEGACY_P256_NAME,
            Suite::HybridPqxdhV1 => HYBRID_PQXDH_V1_NAME,
        }
    }
}

/// The server's choice: hybrid when the client offers it, else P-256 when the
/// client offers that, else nothing.
pub open spec fn select(advertised: Seq<Seq<char>>) -> Option<Suite> {
    if advertised.contains(HYBRID_PQXDH_V1_NAME@) {
        Some(Suite::HybridPqxdhV1)
    } else if advertised.contains(LEGACY_P256_NAME@) {
        Some(Suite::LegacyP256)
    } else {
        None
    }
}

/// Whether `name` is one of the advertised names.
pub fn offers(supported: &Vec<String>, name: &str) -> (b: bool)
    ensures
        b == texts(supported@).contains(name@),
{
    let wanted = String::from_str(name);
    let mut i: usize = 0;
    while i < supported.len()
        invariant
            i <= supported.len(),
            wanted@ == name@,
            forall|j: int| 0 <= j < i ==> texts(supported@)[j] != name@,
        decreases supported.len() - i,
    {
        if supported[i] == wanted {
            assert(texts(supported@)[i as int] == name@);
            return true;
        }
        i = i + 1;
    }
    false
}

/// Picks the suite of a session from the names the client advertises.
pub fn negotiate(supported: &Vec<String>) -> (r: Result<Suite, RpcError>)
    ensures
        match select(texts(supported@)) {
            Some(suite) => r == Ok::<Suite, RpcError>(suite),
            None => r matches Err(e) && e@ == Failure::invalid_params(
                "No supported cryptographic suite found"@,
            ),
        },
{
    if offers(supported, HYBRID_PQXDH_V1_NAME) {
        Ok(Suite::HybridPqxdhV1)
    } else if offers(supported, LEGACY_P256_NAME) {
        Ok(Suite::LegacyP256)
    } else {
        Err(RpcError::invalid_params("No supported cryptographic suite found"))
    }
}

/// The choice depends on which names are advertised, not on their order or on
/// how often one is repeated.
pub proof fn lemma_selection_ignores_order(a: Seq<Seq<char>>, b: Seq<Seq<char>>)
    requires
        a.to_set() == b.to_set(),
    ensures
        select(a) == select(b),
{
    assert forall|name: Seq<char>| a.contains(name) == b.contains(name) by {
        assert(a.to_set().contains(name) == a.contains(name));
        assert(b.to_set().contains(name) == b.contains(name));
    }
}

} // verus!
