//! A small dataflow runtime: processors that exchange packets, the registry
//! that wires them together, and an append-only content repository.
//!
//! Everything here is the decision logic. Channels, sockets, files and timers
//! live with the caller, which feeds events in and carries actions out.

pub mod config;
pub mod content_repository;
pub mod handlers;
pub mod ids;
pub mod models;
pub mod processors;
