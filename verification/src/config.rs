//! The configuration the deployment hands the core: where the datastore
//! lives and how its key is found, how long sessions and tokens last, how
//! often the cleanup sweep runs, where mail goes, which URLs links use,
//! TLS and transport-security settings, and the bootstrap admin account.
//! Loading these from a file or the environment is the caller's business;
//! the core only reads the plain values.

use vstd::prelude::*;

verus! {

/// The bootstrap admin account, created on first start when no account
/// exists yet.
pub struct AdminConfig {
    pub username: String,
    pub email: String,
    pub password: String,
}

/// Where the datastore lives and how its at-rest key is resolved.
pub struct DatabaseConfig {
    pub prod_path: String,
    pub dev_path: String,
    /// Service name of the credential-store entry holding the key.
    pub keyring_service_name: String,
    /// User name of the credential-store entry holding the key.
    pub keyring_username: String,
    /// Environment variable that may carry an explicit hex key.
    pub db_key_env_var_name: String,
    /// Exact byte length the key must have.
    pub db_key_length: usize,
}

/// How long sessions live and how large their tokens are.
pub struct SessionConfig {
    pub duration_days: i64,
    pub token_bytes: usize,
}

/// How long the two one-time tokens live and how large they are.
pub struct TokenConfig {
    pub email_verification_duration_hours: i64,
    pub password_reset_duration_hours: i64,
    pub confirmation_bytes: usize,
}

/// How often the cleanup sweep runs.
pub struct CleanupConfig {
    pub interval_seconds: u64,
}

/// Where outgoing mail is handed over.
pub struct MailConfig {
    pub smtp_host: String,
    pub smtp_port: u16,
    pub from_email: String,
}

/// The base URLs that verification and reset links are built on.
pub struct UrlsConfig {
    pub base_url_dev: String,
    pub base_url_prod: String,
}

/// TLS termination settings.
pub struct TlsConfig {
    pub enabled: bool,
    pub cert_path: String,
    pub key_path: String,
}

/// Transport-security headers and CORS.
pub struct SecurityConfig {
    pub hsts_enabled: bool,
    pub hsts_max_age_seconds: u64,
    pub hsts_include_subdomains: bool,
    pub hsts_preload: bool,
    pub cors_allowed_origins: String,
}

} // verus!
