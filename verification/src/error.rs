use vstd::prelude::*;
use vstd::string::*;

verus! {

/// The three JSON-RPC 2.0 failure classes a call can end in.
#[derive(Debug, Clone, Copy, PartialEq, Eq, Structural)]
pub enum ErrorCode {
    /// A well-formed call whose parameters cannot be used (unknown suite, unparseable key).
    InvalidParams,
    /// A call that is refused as it stands (wrong length, missing session, policy).
    InvalidRequest,
    /// A failure on the server's side (entropy, attestor, store, queue).
    InternalError,
}

impl ErrorCode {
    /// The numeric code that goes on the wire.
    pub open spec fn wire_code(self) -> int {
        match self {
            ErrorCode::InvalidParams => -32602,
            ErrorCode::InvalidRequest => -32600,
            ErrorCode::InternalError => -32603,
        }
    }

    pub fn code(&self) -> (c: i32)
        ensures
            c == self.wire_code(),
    {
        match self {
            ErrorCode::InvalidParams => -32602,
            ErrorCode::InvalidRequest => -32600,
            ErrorCode::InternalError => -32603,
        }
    }
}

/// A failed call as a mathematical value: its class and its text.
pub struct Failure {
    pub code: ErrorCode,
    pub message: Seq<char>,
}

impl Failure {
    pub open spec fn invalid_params(message: Seq<char>) -> Failure {
        Failure { code: ErrorCode::InvalidParams, message }
    }

    pub open spec fn invalid_request(message: Seq<char>) -> Failure {
        Failure { code: ErrorCode::InvalidRequest, message }
    }

    pub open spec fn internal(message: Seq<char>) -> Failure {
        Failure { code: ErrorCode::InternalError, message }
    }
}

/// A failed call: its class and the text shown to the client.
#[derive(Debug)]
pub struct RpcError {
    pub code: ErrorCode,
    pub message: String,
}

impl View for RpcError {
    type V = Failure;

    open spec fn view(&self) -> Failure {
        Failure { code: self.code, message: self.message@ }
    }
}

impl RpcError {
    pub fn new(code: ErrorCode, message: String) -> (e: RpcError)
        ensures
            e@ == (Failure { code, message: message@ }),
    {
        RpcError { code, message }
    }

    pub fn invalid_params(message: &str) -> (e: RpcError)
        ensures
            e@ == Failure::invalid_params(message@),
    {
        RpcError { code: ErrorCode::InvalidParams, message: String::from_str(message) }
    }

    pub fn invalid_request(message: &str) -> (e: RpcError)
        ensures
            e@ == Failure::invalid_request(message@),
    {
        RpcError { code: ErrorCode::InvalidRequest, message: String::from_str(message) }
    }

    pub fn internal(message: &str) -> (e: RpcError)
        ensures
            e@ == Failure::internal(message@),
    {
        RpcError { code: ErrorCode::InternalError, message: String::from_str(message) }
    }
}

} // verus!
