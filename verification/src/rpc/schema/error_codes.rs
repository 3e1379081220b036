//! Named error codes of the RPC protocol.
//!
//! Standard codes follow JSON-RPC 2.0; implementation-defined codes occupy
//! the reserved range -32000 to -32099.
use vstd::prelude::*;

verus! {

/// Invalid JSON: the runtime could not parse the request.
pub const PARSE_ERROR: i32 = -32700;

/// The JSON is valid but not a valid RPC request object.
pub const INVALID_REQUEST: i32 = -32600;

/// The requested method does not exist or is not registered.
pub const METHOD_NOT_FOUND: i32 = -32601;

/// The supplied parameters are invalid for the requested method.
pub const INVALID_PARAMS: i32 = -32602;

/// An unexpected internal error occurred in the runtime.
pub const INTERNAL_ERROR: i32 = -32603;

/// The caller lacks the permission this operation requires.
pub const PERMISSION_DENIED: i32 = -32000;

} // verus!
