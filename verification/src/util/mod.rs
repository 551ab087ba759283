//! Helpers shared by the web API clients.
pub mod rpc;
