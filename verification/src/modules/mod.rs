//! Built-in native modules. Each declares the permissions its RPC methods
//! need and holds the logic of its handlers; the host runs the handlers.
use vstd::prelude::*;

pub mod fs;
pub mod notifications;
pub mod storage;
pub mod system;
pub mod window;

verus! {

/// `std::path::PathBuf`, carried opaquely: the modules hold sandbox and store
/// paths for the host without looking inside them.
#[verifier::external_type_specification]
#[verifier::external_body]
pub struct ExPathBuf(std::path::PathBuf);

} // verus!
