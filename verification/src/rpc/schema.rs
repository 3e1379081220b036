//! RPC message shapes.
//!
//! Wire format of a request: `{ "id": 12, "method": "fs.write", "params": {...} }`;
//! of a response: `{ "id": 12, "result": ... }` or
//! `{ "id": 12, "error": { "code": -32601, "message": "..." } }`.
use vstd::prelude::*;

pub mod error_codes;

verus! {

/// A request from the web view to the runtime.
///
/// `id` is caller-assigned and echoed back; `method` is dot-namespaced,
/// `"<module>.<capability>"`; `params` is specific to the method.
#[derive(Debug, Clone, PartialEq)]
pub struct RpcRequest<P> {
    /// Caller-assigned request ID, echoed back unchanged in the response.
    pub id: u64,
    /// Dot-namespaced method name, e.g. `"fs.write"`.
    pub method: String,
    /// Method-specific parameters.
    pub params: P,
}

/// The error carried by an error response.
#[derive(Debug, Clone, PartialEq, Eq)]
pub struct RpcErrorPayload {
    /// Numeric error code (see [`error_codes`]).
    pub code: i32,
    /// Human-readable description.
    pub message: String,
}

impl View for RpcErrorPayload {
    /// `(code, message)`.
    type V = (i32, Seq<char>);

    open spec fn view(&self) -> (i32, Seq<char>) {
        (self.code, self.message@)
    }
}

impl RpcErrorPayload {
    /// An error payload from a code and message.
    pub fn new(code: i32, message: &str) -> (r: Self)
        ensures
            r@ == (code, message@),
    {
        RpcErrorPayload { code, message: String::from_str(message) }
    }
}

/// A response from the runtime: exactly one of a result or an error.
#[derive(Debug, Clone, PartialEq)]
pub enum RpcResponse<R> {
    /// The method's return value.
    Success {
        /// The ID of the originating request.
        id: u64,
        /// The method's return value.
        result: R,
    },
    /// A structured error.
    Error {
        /// The ID of the originating request.
        id: u64,
        /// What went wrong.
        error: RpcErrorPayload,
    },
}

impl<R> RpcResponse<R> {
    /// The request ID that this response echoes.
    pub open spec fn spec_id(&self) -> u64 {
        match self {
            RpcResponse::Success { id, .. } => *id,
            RpcResponse::Error { id, .. } => *id,
        }
    }

    /// A success response.
    pub fn success(id: u64, result: R) -> (r: Self)
        ensures
            r == (RpcResponse::Success { id, result }),
    {
        RpcResponse::Success { id, result }
    }

    /// An error response from a code and message.
    pub fn error(id: u64, code: i32, message: &str) -> (r: Self)
        ensures
            r matches RpcResponse::Error { id: rid, error } && rid == id && error@ == (
                code,
                message@,
            ),
    {
        RpcResponse::Error { id, error: RpcErrorPayload::new(code, message) }
    }

    /// The request ID echoed by this response.
    pub fn id(&self) -> (r: u64)
        ensures
            r == self.spec_id(),
    {
        match self {
            RpcResponse::Success { id, .. } => *id,
            RpcResponse::Error { id, .. } => *id,
        }
    }

    /// Whether this is a success response.
    pub fn is_ok(&self) -> (r: bool)
        ensures
            r == (self is Success),
    {
        match self {
            RpcResponse::Success { .. } => true,
            RpcResponse::Error { .. } => false,
        }
    }

    /// Whether this is an error response.
    pub fn is_err(&self) -> (r: bool)
        ensures
            r == (self is Error),
            r == !(self is Success),
    {
        !self.is_ok()
    }
}

} // verus!
