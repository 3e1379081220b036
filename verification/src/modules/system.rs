//! `system` native module: read-only OS and runtime information.
//!
//! No permission is declared: the information is non-sensitive and read-only.
//! Methods: `system.info`, `system.platform`, `system.version`.
use vstd::prelude::*;

use crate::permissions::engine::PermissionEngine;

verus! {

/// The `system` module.
#[derive(Debug, Clone, Copy)]
pub struct SystemModule;

impl SystemModule {
    /// Stable module identifier.
    pub fn name(&self) -> (r: &'static str)
        ensures
            r@ == "system"@,
    {
        "system"
    }

    /// The platform that `system.platform` reports: Axion targets Windows only.
    pub fn platform(&self) -> (r: &'static str)
        ensures
            r@ == "windows"@,
    {
        "windows"
    }

    /// `system` methods require no permission, so nothing is declared.
    pub fn declare_permissions(&self, engine: &mut PermissionEngine)
        ensures
            final(engine).requirements() == old(engine).requirements(),
            final(engine).perms() == old(engine).perms(),
    {
    }
}

/// A byte count in whole mebibytes (rounded down), as `system.info` reports
/// total memory.
pub fn bytes_to_mb(bytes: u64) -> (r: u64)
    ensures
        r == bytes / 1048576u64,
{
    bytes / (1024 * 1024)
}

} // verus!
