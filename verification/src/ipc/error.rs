//! Errors produced by the IPC bridge.
use vstd::prelude::*;

use crate::text::{decimal, push_decimal};

verus! {

/// Errors produced by the IPC bridge.
#[derive(Debug, Clone, PartialEq, Eq)]
pub enum IpcError {
    /// The message payload exceeds the size limit.
    MessageTooLarge {
        /// The payload's size in bytes.
        actual: usize,
        /// The limit in bytes.
        limit: usize,
    },
    /// The underlying web view send call failed.
    SendFailed(String),
}

/// The human-readable text of an [`IpcError`].
pub open spec fn ipc_error_text(e: IpcError) -> Seq<char> {
    match e {
        IpcError::MessageTooLarge { actual, limit } => "message size "@ + decimal(actual as nat)
            + " bytes exceeds the "@ + decimal(limit as nat) + " byte limit"@,
        IpcError::SendFailed(detail) => "failed to send message to JavaScript: "@ + detail@,
    }
}

impl IpcError {
    /// The error's message, e.g.
    /// `message size 1048577 bytes exceeds the 1048576 byte limit`.
    pub fn message(&self) -> (r: String)
        ensures
            r@ == ipc_error_text(*self),
    {
        match self {
            IpcError::MessageTooLarge { actual, limit } => {
                let mut r = String::from_str("message size ");
                push_decimal(&mut r, *actual);
                r.append(" bytes exceeds the ");
                push_decimal(&mut r, *limit);
                r.append(" byte limit");
                r
            },
            IpcError::SendFailed(detail) => {
                let mut r = String::from_str("failed to send message to JavaScript: ");
                r.append(detail.as_str());
                r
            },
        }
    }
}

} // verus!
