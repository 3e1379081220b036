//! The IPC layer between the web view's JavaScript context and the runtime:
//! message size limits, IPC errors, and the `axion://` asset scheme.
pub mod bridge;
pub mod error;
pub mod uri_scheme;
