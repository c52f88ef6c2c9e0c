use crate::primitives::bytes_of;
use crate::store::SessionId;
use vstd::prelude::*;
use vstd::string::*;

verus! {

/// The answer to a `hello` call: the attestation document, the chosen suite,
/// and, for the hybrid suite only, the server's two public keys.
#[derive(Debug)]
pub struct HelloResponse {
    pub uuid: SessionId,
    pub attestation: Vec<u8>,
    /// `"Self-PQXDH-1"` or `"legacy-p256"`.
    pub selected_suite: String,
    /// The server's X25519 public key, 32 bytes.
    pub x25519_pubkey: Option<Vec<u8>>,
    /// The server's ML-KEM-768 encapsulation key, 1184 bytes.
    pub kyber_pubkey: Option<Vec<u8>>,
}

/// A [`HelloResponse`] as a mathematical value.
pub struct HelloResponseView {
    pub uuid: SessionId,
    pub attestation: Seq<u8>,
    pub selected_suite: Seq<char>,
    pub x25519_pubkey: Option<Seq<u8>>,
    pub kyber_pubkey: Option<Seq<u8>>,
}

impl View for HelloResponse {
    type V = HelloResponseView;

    open spec fn view(&self) -> HelloResponseView {
        HelloResponseView {
            uuid: self.uuid,
            attestation: self.attestation@,
            selected_suite: self.selected_suite@,
            x25519_pubkey: bytes_of(self.x25519_pubkey),
            kyber_pubkey: bytes_of(self.kyber_pubkey),
        }
    }
}

impl HelloResponse {
    pub fn new(
        uuid: SessionId,
        attestation: Vec<u8>,
        selected_suite: String,
        x25519_pubkey: Option<Vec<u8>>,
        kyber_pubkey: Option<Vec<u8>>,
    ) -> (r: HelloResponse)
        ensures
            r@ == (HelloResponseView {
                uuid,
                attestation: attestation@,
                selected_suite: selected_suite@,
                x25519_pubkey: bytes_of(x25519_pubkey),
                kyber_pubkey: bytes_of(kyber_pubkey),
            }),
    {
        HelloResponse { uuid, attestation, selected_suite, x25519_pubkey, kyber_pubkey }
    }
}

/// The circuit a proof request refers to.
#[derive(Debug, Clone)]
pub struct Circuit {
    pub name: String,
}

/// Where the result of a proof is delivered.
#[derive(Debug, Clone, Copy, PartialEq, Eq, Structural)]
pub enum EndpointType {
    Celo,
    Https,
    StagingCelo,
    StagingHttps,
    TestCelo,
    TestHttps,
}

impl EndpointType {
    /// The name of the endpoint type in a payload.
    pub open spec fn spec_name(self) -> Seq<char> {
        match self {
            EndpointType::Celo => "celo"@,
            EndpointType::Https => "https"@,
            EndpointType::StagingCelo => "staging_celo"@,
            EndpointType::StagingHttps => "staging_https"@,
            EndpointType::TestCelo => "test_celo"@,
            EndpointType::TestHttps => "test_https"@,
        }
    }

    pub fn name(&self) -> (n: &'static str)
        ensures
            n@ == self.spec_name(),
    {
        match self {
            EndpointType::Celo => "celo",
            EndpointType::Https => "https",
            EndpointType::StagingCelo => "staging_celo",
            EndpointType::StagingHttps => "staging_https",
            EndpointType::TestCelo => "test_celo",
            EndpointType::TestHttps => "test_https",
        }
    }
}

/// The version of a disclose request that names none.
pub fn default_version() -> (v: u32)
    ensures
        v == 1,
{
    1
}

/// The user-defined and self-defined data of a disclose request that carries none.
pub fn default_user_defined_data() -> (s: String)
    ensures
        s@ == Seq::<char>::empty(),
{
    String::new()
}

/// A decrypted job payload, by its `type` tag.
#[derive(Debug, Clone)]
#[allow(inconsistent_fields)]
pub enum ProofRequest {
    Register { circuit: Circuit, endpoint_type: Option<EndpointType>, endpoint: Option<String> },
    Dsc { circuit: Circuit, endpoint_type: Option<EndpointType>, endpoint: Option<String> },
    Disclose {
        circuit: Circuit,
        endpoint_type: EndpointType,
        endpoint: String,
        user_defined_data: String,
        self_defined_data: String,
        version: u32,
    },
    RegisterId { circuit: Circuit, endpoint_type: Option<EndpointType>, endpoint: Option<String> },
    DscId { circuit: Circuit, endpoint_type: Option<EndpointType>, endpoint: Option<String> },
    DiscloseId {
        circuit: Circuit,
        endpoint_type: EndpointType,
        endpoint: String,
        user_defined_data: String,
        self_defined_data: String,
        version: u32,
    },
    RegisterAadhaar {
        circuit: Circuit,
        endpoint_type: Option<EndpointType>,
        endpoint: Option<String>,
    },
    DiscloseAadhaar {
        circuit: Circuit,
        endpoint_type: EndpointType,
        endpoint: String,
        user_defined_data: String,
        self_defined_data: String,
        version: u32,
    },
    RegisterKyc { circuit: Circuit, endpoint_type: Option<EndpointType>, endpoint: Option<String> },
    DiscloseKyc {
        circuit: Circuit,
        endpoint_type: EndpointType,
        endpoint: String,
        user_defined_data: String,
        self_defined_data: String,
        version: u32,
    },
}

/// The tag of a [`ProofRequest`].
#[derive(Debug, Clone, Copy, PartialEq, Eq, Structural)]
pub enum ProofType {
    Register,
    Dsc,
    Disclose,
    RegisterId,
    DscId,
    DiscloseId,
    RegisterAadhaar,
    DiscloseAadhaar,
    RegisterKyc,
    DiscloseKyc,
}

/// The three families of requests that a deployment can be limited to.
#[derive(Debug, Clone, Copy, PartialEq, Eq, Structural)]
pub enum ProofFamily {
    Register,
    Dsc,
    Disclose,
}

impl ProofType {
    /// The number under which the tag is recorded.
    pub open spec fn spec_code(self) -> int {
        match self {
            ProofType::Register => 0,
            ProofType::Dsc => 1,
            ProofType::Disclose => 2,
            ProofType::RegisterId => 3,
            ProofType::DscId => 4,
            ProofType::DiscloseId => 5,
            ProofType::RegisterAadhaar => 6,
            ProofType::DiscloseAadhaar => 7,
            ProofType::RegisterKyc => 8,
            ProofType::DiscloseKyc => 9,
        }
    }

    /// The tag as it stands in a payload's `type` field.
    pub open spec fn spec_name(self) -> Seq<char> {
        match self {
            ProofType::Register => "register"@,
            ProofType::Dsc => "dsc"@,
            ProofType::Disclose => "disclose"@,
            ProofType::RegisterId => "register_id"@,
            ProofType::DscId => "dsc_id"@,
            ProofType::DiscloseId => "disclose_id"@,
            ProofType::RegisterAadhaar => "register_aadhaar"@,
            ProofType::DiscloseAadhaar => "disclose_aadhaar"@,
            ProofType::RegisterKyc => "register_kyc"@,
            ProofType::DiscloseKyc => "disclose_kyc"@,
        }
    }

    /// The family a deployment's policy is matched against.
    pub open spec fn spec_family(self) -> ProofFamily {
        match self {
            ProofType::Register => ProofFamily::Register,
            ProofType::RegisterId => ProofFamily::Register,
            ProofType::RegisterAadhaar => ProofFamily::Register,
            ProofType::RegisterKyc => ProofFamily::Register,
            ProofType::Dsc => ProofFamily::Dsc,
            ProofType::DscId => ProofFamily::Dsc,
            ProofType::Disclose => ProofFamily::Disclose,
            ProofType::DiscloseId => ProofFamily::Disclose,
            ProofType::DiscloseAadhaar => ProofFamily::Disclose,
            ProofType::DiscloseKyc => ProofFamily::Disclose,
        }
    }

    pub fn code(&self) -> (c: i32)
        ensures
            c == self.spec_code(),
    {
        match self {
            ProofType::Register => 0,
            ProofType::Dsc => 1,
            ProofType::Disclose => 2,
            ProofType::RegisterId => 3,
            ProofType::DscId => 4,
            ProofType::DiscloseId => 5,
            ProofType::RegisterAadhaar => 6,
            ProofType::DiscloseAadhaar => 7,
            ProofType::RegisterKyc => 8,
            ProofType::DiscloseKyc => 9,
        }
    }

    /// The tag recorded under `value`; an error when no tag has that number.
    pub fn from_code(value: i32) -> (r: Result<ProofType, ()>)
        ensures
            r is Ok <==> 0 <= value <= 9,
            r matches Ok(t) ==> t.spec_code() == value,
    {
        match value {
            0 => Ok(ProofType::Register),
            1 => Ok(ProofType::Dsc),
            2 => Ok(ProofType::Disclose),
            3 => Ok(ProofType::RegisterId),
            4 => Ok(ProofType::DscId),
            5 => Ok(ProofType::DiscloseId),
            6 => Ok(ProofType::RegisterAadhaar),
            7 => Ok(ProofType::DiscloseAadhaar),
            8 => Ok(ProofType::RegisterKyc),
            9 => Ok(ProofType::DiscloseKyc),
            _ => Err(()),
        }
    }

    pub fn name(&self) -> (n: &'static str)
        ensures
            n@ == self.spec_name(),
    {
        match self {
            ProofType::Register => "register",
            ProofType::Dsc => "dsc",
            ProofType::Disclose => "disclose",
            ProofType::RegisterId => "register_id",
            ProofType::DscId => "dsc_id",
            ProofType::DiscloseId => "disclose_id",
            ProofType::RegisterAadhaar => "register_aadhaar",
            ProofType::DiscloseAadhaar => "disclose_aadhaar",
            ProofType::RegisterKyc => "register_kyc",
            ProofType::DiscloseKyc => "disclose_kyc",
        }
    }

    /// The tag written out, as it stands in a payload.
    pub fn to_string(&self) -> (s: String)
        ensures
            s@ == self.spec_name(),
    {
        String::from_str(self.name())
    }

    pub fn family(&self) -> (f: ProofFamily)
        ensures
            f == self.spec_family(),
    {
        match self {
            ProofType::Register => ProofFamily::Register,
            ProofType::RegisterId => ProofFamily::Register,
            ProofType::RegisterAadhaar => ProofFamily::Register,
            ProofType::RegisterKyc => ProofFamily::Register,
            ProofType::Dsc => ProofFamily::Dsc,
            ProofType::DscId => ProofFamily::Dsc,
            ProofType::Disclose => ProofFamily::Disclose,
            ProofType::DiscloseId => ProofFamily::Disclose,
            ProofType::DiscloseAadhaar => ProofFamily::Disclose,
            ProofType::DiscloseKyc => ProofFamily::Disclose,
        }
    }
}

/// What is recorded of a request when it is accepted: where the proof goes,
/// and the data a disclose request carries.
#[derive(Debug)]
pub struct StatusRecord {
    pub endpoint_type: Option<EndpointType>,
    pub endpoint: Option<String>,
    pub user_defined_data: String,
    pub self_defined_data: String,
    pub version: u32,
}

/// What an optional text holds.
pub open spec fn optional_text(v: Option<String>) -> Option<Seq<char>> {
    match v {
        Some(text) => Some(text@),
        None => None,
    }
}

/// A [`StatusRecord`] as a mathematical value.
pub struct StatusRecordView {
    pub endpoint_type: Option<EndpointType>,
    pub endpoint: Option<Seq<char>>,
    pub user_defined_data: Seq<char>,
    pub self_defined_data: Seq<char>,
    pub version: u32,
}

impl View for StatusRecord {
    type V = StatusRecordView;

    open spec fn view(&self) -> StatusRecordView {
        StatusRecordView {
            endpoint_type: self.endpoint_type,
            endpoint: optional_text(self.endpoint),
            user_defined_data: self.user_defined_data@,
            self_defined_data: self.self_defined_data@,
            version: self.version,
        }
    }
}

fn copy_optional_text(v: &Option<String>) -> (r: Option<String>)
    ensures
        optional_text(r) == optional_text(*v),
{
    match v {
        Some(text) => Some(text.clone()),
        None => None,
    }
}

impl ProofRequest {
    /// The circuit of the request, whatever its tag.
    pub open spec fn spec_circuit(&self) -> Circuit {
        match self {
            ProofRequest::Register { circuit, .. } => *circuit,
            ProofRequest::Dsc { circuit, .. } => *circuit,
            ProofRequest::Disclose { circuit, .. } => *circuit,
            ProofRequest::RegisterId { circuit, .. } => *circuit,
            ProofRequest::DscId { circuit, .. } => *circuit,
            ProofRequest::DiscloseId { circuit, .. } => *circuit,
            ProofRequest::RegisterAadhaar { circuit, .. } => *circuit,
            ProofRequest::DiscloseAadhaar { circuit, .. } => *circuit,
            ProofRequest::RegisterKyc { circuit, .. } => *circuit,
            ProofRequest::DiscloseKyc { circuit, .. } => *circuit,
        }
    }

    /// The tag of the request.
    pub open spec fn spec_proof_type(&self) -> ProofType {
        match self {
            ProofRequest::Register { .. } => ProofType::Register,
            ProofRequest::Dsc { .. } => ProofType::Dsc,
            ProofRequest::Disclose { .. } => ProofType::Disclose,
            ProofRequest::RegisterId { .. } => ProofType::RegisterId,
            ProofRequest::DscId { .. } => ProofType::DscId,
            ProofRequest::DiscloseId { .. } => ProofType::DiscloseId,
            ProofRequest::RegisterAadhaar { .. } => ProofType::RegisterAadhaar,
            ProofRequest::DiscloseAadhaar { .. } => ProofType::DiscloseAadhaar,
            ProofRequest::RegisterKyc { .. } => ProofType::RegisterKyc,
            ProofRequest::DiscloseKyc { .. } => ProofType::DiscloseKyc,
        }
    }

    /// What is recorded of the request: a disclose request gives its endpoint
    /// and data; any other gives its optional endpoint, no data and version 1.
    pub open spec fn spec_status_record(&self) -> StatusRecordView {
        match self {
            ProofRequest::Disclose {
                endpoint_type,
                endpoint,
                user_defined_data,
                self_defined_data,
                version,
                ..
            } => disclosed(
                *endpoint_type,
                endpoint@,
                user_defined_data@,
                self_defined_data@,
                *version,
            ),
            ProofRequest::DiscloseId {
                endpoint_type,
                endpoint,
                user_defined_data,
                self_defined_data,
                version,
                ..
            } => disclosed(
                *endpoint_type,
                endpoint@,
                user_defined_data@,
                self_defined_data@,
                *version,
            ),
            ProofRequest::DiscloseAadhaar {
                endpoint_type,
                endpoint,
                user_defined_data,
                self_defined_data,
                version,
                ..
            } => disclosed(
                *endpoint_type,
                endpoint@,
                user_defined_data@,
                self_defined_data@,
                *version,
            ),
            ProofRequest::DiscloseKyc {
                endpoint_type,
                endpoint,
                user_defined_data,
                self_defined_data,
                version,
                ..
            } => disclosed(
                *endpoint_type,
                endpoint@,
                user_defined_data@,
                self_defined_data@,
                *version,
            ),
            ProofRequest::Register { endpoint_type, endpoint, .. } => undisclosed(
                *endpoint_type,
                optional_text(*endpoint),
            ),
            ProofRequest::Dsc { endpoint_type, endpoint, .. } => undisclosed(
                *endpoint_type,
                optional_text(*endpoint),
            ),
            ProofRequest::RegisterId { endpoint_type, endpoint, .. } => undisclosed(
                *endpoint_type,
                optional_text(*endpoint),
            ),
            ProofRequest::DscId { endpoint_type, endpoint, .. } => undisclosed(
                *endpoint_type,
                optional_text(*endpoint),
            ),
            ProofRequest::RegisterAadhaar { endpoint_type, endpoint, .. } => undisclosed(
                *endpoint_type,
                optional_text(*endpoint),
            ),
            ProofRequest::RegisterKyc { endpoint_type, endpoint, .. } => undisclosed(
                *endpoint_type,
                optional_text(*endpoint),
            ),
        }
    }

    pub fn circuit(&self) -> (c: &Circuit)
        ensures
            *c == self.spec_circuit(),
    {
        match self {
            ProofRequest::Register { circuit, .. } => circuit,
            ProofRequest::Dsc { circuit, .. } => circuit,
            ProofRequest::Disclose { circuit, .. } => circuit,
            ProofRequest::RegisterId { circuit, .. } => circuit,
            ProofRequest::DscId { circuit, .. } => circuit,
            ProofRequest::DiscloseId { circuit, .. } => circuit,
            ProofRequest::RegisterAadhaar { circuit, .. } => circuit,
            ProofRequest::DiscloseAadhaar { circuit, .. } => circuit,
            ProofRequest::RegisterKyc { circuit, .. } => circuit,
            ProofRequest::DiscloseKyc { circuit, .. } => circuit,
        }
    }

    pub fn proof_type(&self) -> (t: ProofType)
        ensures
            t == self.spec_proof_type(),
    {
        match self {
            ProofRequest::Register { .. } => ProofType::Register,
            ProofRequest::Dsc { .. } => ProofType::Dsc,
            ProofRequest::Disclose { .. } => ProofType::Disclose,
            ProofRequest::RegisterId { .. } => ProofType::RegisterId,
            ProofRequest::DscId { .. } => ProofType::DscId,
            ProofRequest::DiscloseId { .. } => ProofType::DiscloseId,
            ProofRequest::RegisterAadhaar { .. } => ProofType::RegisterAadhaar,
            ProofRequest::DiscloseAadhaar { .. } => ProofType::DiscloseAadhaar,
            ProofRequest::RegisterKyc { .. } => ProofType::RegisterKyc,
            ProofRequest::DiscloseKyc { .. } => ProofType::DiscloseKyc,
        }
    }

    /// The number under which the request's tag is recorded.
    pub fn code(&self) -> (c: i32)
        ensures
            c == self.spec_proof_type().spec_code(),
    {
        self.proof_type().code()
    }

    pub fn status_record(&self) -> (r: StatusRecord)
        ensures
            r@ == self.spec_status_record(),
    {
        match self {
            ProofRequest::Disclose {
                endpoint_type,
                endpoint,
                user_defined_data,
                self_defined_data,
                version,
                ..
            }
            | ProofRequest::DiscloseId {
                endpoint_type,
                endpoint,
                user_defined_data,
                self_defined_data,
                version,
                ..
            }
            | ProofRequest::DiscloseAadhaar {
                endpoint_type,
                endpoint,
                user_defined_data,
                self_defined_data,
                version,
                ..
            }
            | ProofRequest::DiscloseKyc {
                endpoint_type,
                endpoint,
                user_defined_data,
                self_defined_data,
                version,
                ..
            } => StatusRecord {
                endpoint_type: Some(*endpoint_type),
                endpoint: Some(endpoint.clone()),
                user_defined_data: user_defined_data.clone(),
                self_defined_data: self_defined_data.clone(),
                version: *version,
            },
            ProofRequest::Register { endpoint_type, endpoint, .. }
            | ProofRequest::Dsc { endpoint_type, endpoint, .. }
            | ProofRequest::RegisterId { endpoint_type, endpoint, .. }
            | ProofRequest::DscId { endpoint_type, endpoint, .. }
            | ProofRequest::RegisterAadhaar { endpoint_type, endpoint, .. }
            | ProofRequest::RegisterKyc { endpoint_type, endpoint, .. } => StatusRecord {
                endpoint_type: *endpoint_type,
                endpoint: copy_optional_text(endpoint),
                user_defined_data: default_user_defined_data(),
                self_defined_data: default_user_defined_data(),
                version: default_version(),
            },
        }
    }
}

/// The record of a disclose request.
pub open spec fn disclosed(
    endpoint_type: EndpointType,
    endpoint: Seq<char>,
    user_defined_data: Seq<char>,
    self_defined_data: Seq<char>,
    version: u32,
) -> StatusRecordView {
    StatusRecordView {
        endpoint_type: Some(endpoint_type),
        endpoint: Some(endpoint),
        user_defined_data,
        self_defined_data,
        version,
    }
}

/// The record of a request that discloses nothing.
pub open spec fn undisclosed(
    endpoint_type: Option<EndpointType>,
    endpoint: Option<Seq<char>>,
) -> StatusRecordView {
    StatusRecordView {
        endpoint_type,
        endpoint,
        user_defined_data: Seq::<char>::empty(),
        self_defined_data: Seq::<char>::empty(),
        version: 1,
    }
}

/// A decrypted job payload: whether the proof goes on chain, and the request.
#[derive(Debug, Clone)]
pub struct SubmitRequest {
    pub onchain: bool,
    pub proof_request_type: ProofRequest,
}

} // verus!
