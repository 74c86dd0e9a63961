//! The control plane: request and response bodies, the processor registry
//! and the decisions behind each HTTP operation.

pub mod cluster_request_handlers;
pub mod errors;
pub mod models;
pub mod processor_request_handlers;
pub mod registry;
