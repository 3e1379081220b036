//! The size policy of the IPC bridge.
//!
//! Every message between the web view and the runtime is capped at
//! [`MAX_MESSAGE_BYTES`] (its UTF-8 length): an oversized inbound message is
//! silently dropped, an oversized outbound one is rejected with an error.
//! The bridge that carries the messages is the host's.
use vstd::prelude::*;

use super::error::IpcError;
use vstd::string::*;

verus! {

/// Maximum IPC message payload: 1 MiB.
pub const MAX_MESSAGE_BYTES: usize = 1024 * 1024;

/// The UTF-8 length of `s` in bytes, as `str::len` reports it.
pub open spec fn byte_len(s: &str) -> nat {
    (s.spec_bytes().len() as usize) as nat
}

/// Whether a message of this UTF-8 length is within the limit.
pub open spec fn within_limit(len: nat) -> bool {
    len <= MAX_MESSAGE_BYTES
}

/// Whether an inbound message is delivered: only if its size does not
/// exceed the limit.
pub open spec fn inbound_delivered(message: &str) -> bool {
    byte_len(message) <= MAX_MESSAGE_BYTES
}

/// What sending an outbound message gives: an error carrying its size and the
/// limit when it is larger than the limit, otherwise success.
pub open spec fn outbound_outcome(message: &str) -> Result<(), IpcError> {
    if byte_len(message) > MAX_MESSAGE_BYTES {
        Err(IpcError::MessageTooLarge { actual: byte_len(message) as usize, limit: MAX_MESSAGE_BYTES })
    } else {
        Ok(())
    }
}

/// Whether an inbound message from JavaScript is delivered to the handler:
/// only if it does not exceed [`MAX_MESSAGE_BYTES`].
pub fn inbound_accepted(message: &str) -> (r: bool)
    ensures
        r == within_limit(byte_len(message)),
        r == inbound_delivered(message),
{
    message.len() <= MAX_MESSAGE_BYTES
}

/// Whether an outbound message may be sent to JavaScript; an oversized one is
/// rejected with [`IpcError::MessageTooLarge`] carrying its size and the limit.
pub fn check_outbound(message: &str) -> (r: Result<(), IpcError>)
    ensures
        r is Ok <==> within_limit(byte_len(message)),
        r matches Err(e) ==> e == (IpcError::MessageTooLarge {
            actual: byte_len(message) as usize,
            limit: MAX_MESSAGE_BYTES,
        }),
        r == outbound_outcome(message),
{
    let len = message.len();
    if len > MAX_MESSAGE_BYTES {
        Err(IpcError::MessageTooLarge { actual: len, limit: MAX_MESSAGE_BYTES })
    } else {
        Ok(())
    }
}

/// Both directions apply the same limit: a message is delivered inbound
/// exactly when sending it outbound succeeds, and a message refused outbound
/// is one that would be dropped inbound.
pub proof fn lemma_same_limit_both_ways(message: &str)
    ensures
        inbound_delivered(message) <==> outbound_outcome(message) is Ok,
        outbound_outcome(message) is Err ==> !inbound_delivered(message),
{
}

} // verus!
