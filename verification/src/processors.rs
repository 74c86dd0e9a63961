//! The processor runtime: data types, payload functions and the event loop's
//! state machine.

pub mod base_processor;
pub mod functions;
pub mod in_memory_processor;
pub mod in_memory_source_processor;
pub mod models;
pub mod traces;
