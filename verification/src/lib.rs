//! Axion core: the verified logic of a permission-gated desktop runtime.
//!
//! - [`permissions`]: the `permissions.json` schema and the Permission Engine
//!   that checks every RPC call before its handler runs.
//! - [`rpc`]: message shapes, error codes, parameter checks and routing.
//! - [`module`]: the registry that holds the native modules in order.
//! - [`modules`]: the built-in native modules (`fs`, `storage`,
//!   `notifications`, `system`, `window`).
//! - [`assets`] and [`ipc`]: the embedded frontend bundle, the `axion://`
//!   scheme and the IPC size policy.
pub mod assets;
pub mod ipc;
pub mod module;
pub mod modules;
pub mod permissions;
pub mod rpc;
pub mod table;
pub mod text;
