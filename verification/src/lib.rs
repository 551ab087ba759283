//! Client-side plumbing that sends sealing work to remote web API servers and holds
//! resources of a scheduler while the work runs: message types, the scheduler's gRPC
//! method table, and the decisions taken on every reply.
pub mod decimal;
pub mod json;
pub mod scheduler;
pub mod scheduler_grpc;
pub mod util;
pub mod webapi;
pub mod wire;
