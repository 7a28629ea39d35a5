//! Configuration schema of the command client.

use vstd::prelude::*;

verus! {

/// Everything the command client is configured with.
#[derive(Debug, Clone)]
pub struct McpConfig {
    /// How the service is reached.
    pub server: ServerConfig,
    /// Keys and certificates.
    pub security: SecurityConfig,
    /// Local storage.
    pub database: DatabaseConfig,
    /// The actions subsystem.
    pub actions: ActionsConfig,
}

/// How the service is reached.
#[derive(Debug, Clone)]
pub struct ServerConfig {
    /// URL of the service.
    pub api_url: String,
    /// Seconds after which a request is given up.
    pub timeout_seconds: u64,
    /// Identifier of this client.
    pub client_id: String,
}

/// Keys and certificates.
#[derive(Debug, Clone)]
pub struct SecurityConfig {
    /// Path of the private key file.
    pub private_key_path: String,
    /// Whether certificates are verified.
    pub verify_certs: bool,
    /// Path of the certificates of a custom authority.
    pub ca_cert_path: Option<String>,
}

/// Local storage.
#[derive(Debug, Clone)]
pub struct DatabaseConfig {
    /// Path of the database file.
    pub db_path: String,
    /// Largest number of cached log entries.
    pub max_cache_entries: usize,
}

/// The actions subsystem.
#[derive(Debug, Clone)]
pub struct ActionsConfig {
    /// Directory of the action definitions.
    pub actions_dir: String,
    /// Path of the permissions policy.
    pub permissions_path: String,
    /// Whether risky actions need a confirmation.
    pub require_confirmation: bool,
    /// Seconds after which an action is given up.
    pub execution_timeout: u64,
}

} // verus!
