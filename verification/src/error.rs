//! Crate-wide error type.

use vstd::prelude::*;

verus! {

/// Result alias used throughout the crate.
pub type JwksResult<T> = Result<T, Error>;

/// Unified error type for the JWKS cache crate.
#[derive(Debug, Clone)]
pub enum Error {
    /// I/O failure reported by the environment.
    Io(String),
    /// System clock failure.
    SystemTime(String),
    /// HTTP transport or protocol failure.
    Http(String),
    /// Upstream returned a non-success status.
    HttpStatus {
        /// Status code returned by the upstream.
        status: u16,
        /// URL that was fetched.
        url: String,
        /// Response body, when one could be read.
        body: Option<String>,
    },
    /// The response body was not a valid JWKS document.
    Serde(String),
    /// A URL could not be parsed.
    Url(String),
    /// Cache-level failure.
    Cache(String),
    /// Telemetry failure.
    Metrics(String),
    /// No provider is registered for the given pair.
    NotRegistered {
        /// Tenant that was looked up.
        tenant: String,
        /// Provider that was looked up.
        provider: String,
    },
    /// Security violation (HTTPS downgrade, allowlist, SPKI pin).
    Security(String),
    /// A configuration or input value failed validation.
    Validation {
        /// Name of the offending field.
        field: String,
        /// Why the value was rejected.
        reason: String,
    },
}

} // verus!
