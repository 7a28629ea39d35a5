//! Configuration schema of the collector process.

use crate::collector::config::CollectorConfig;
use vstd::prelude::*;

verus! {

/// Everything the collector process is configured with.
#[derive(Debug, Clone)]
pub struct LogCollectorConfig {
    /// The pipeline.
    pub collector: CollectorConfig,
    /// Key files.
    pub encryption: EncryptionConfig,
    /// Local storage.
    pub database: DatabaseConfig,
}

/// Key files.
#[derive(Debug, Clone)]
pub struct EncryptionConfig {
    /// Path of the private key file.
    pub private_key_path: String,
    /// Path of the service's public key file.
    pub server_public_key_path: String,
}

/// Local storage.
#[derive(Debug, Clone)]
pub struct DatabaseConfig {
    /// Path of the database file.
    pub db_path: String,
}

} // verus!
