//! The content repository: an append-only file of newline-terminated
//! records, written by a single writer and served over a framed protocol.

pub mod content_repository_manager;
pub mod models;
pub mod records;
pub mod server;
