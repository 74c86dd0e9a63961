//! The settings that the services read at startup.

use vstd::prelude::*;

verus! {

/// Settings of the content repository.
#[derive(Debug, Clone)]
pub struct ContentRepositoryConfig {
    /// Directory of the repository's file; it is created if absent.
    pub base_path: String,
    /// Name of the repository's file without its extension.
    pub file_name_prefix: String,
    pub server_port: u16,
}

/// Settings of the control service.
#[derive(Debug, Clone)]
pub struct MainConfig {
    pub server_port: u16,
    /// Capacity of each processor's data channel.
    pub processor_queue_length: usize,
}

/// All settings.
#[derive(Debug)]
pub struct Config {
    pub content_repository: ContentRepositoryConfig,
    pub rusk_main: MainConfig,
}

} // verus!
