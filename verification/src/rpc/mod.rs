//! The RPC protocol between the web view and the runtime: message shapes,
//! error codes, parameter checks, and the routing of a request to its handler.
pub mod dispatcher;
pub mod params;
pub mod schema;
