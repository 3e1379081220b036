//! Parameter checks and error payloads shared by the native modules' handlers.
use vstd::prelude::*;

use super::schema::error_codes::{INTERNAL_ERROR, INVALID_PARAMS};
use super::schema::RpcErrorPayload;

verus! {

/// The message for a required string parameter that is missing or not a string.
pub open spec fn missing_param_message(name: Seq<char>) -> Seq<char> {
    "'"@ + name + "' (string) is required"@
}

/// A handler's required string parameter: the value given, or
/// `INVALID_PARAMS` naming the parameter when it is absent or not a string.
pub fn require_string(value: Option<&str>, name: &str) -> (r: Result<String, RpcErrorPayload>)
    ensures
        value is Some <==> r is Ok,
        r matches Ok(s) ==> s@ == value->Some_0@,
        r matches Err(p) ==> p@ == (INVALID_PARAMS, missing_param_message(name@)),
{
    match value {
        Some(v) => Ok(String::from_str(v)),
        None => {
            let mut message = String::from_str("'");
            message.append(name);
            message.append("' (string) is required");
            Err(RpcErrorPayload { code: INVALID_PARAMS, message })
        },
    }
}

/// An `INTERNAL_ERROR` whose message is `prefix` followed by `detail`, e.g.
/// `fs.read failed: <io error>`.
pub fn internal_failure(prefix: &str, detail: &str) -> (r: RpcErrorPayload)
    ensures
        r@ == (INTERNAL_ERROR, prefix@ + detail@),
{
    let mut message = String::from_str(prefix);
    message.append(detail);
    RpcErrorPayload { code: INTERNAL_ERROR, message }
}

} // verus!
