//! Multi-tenant cache for JSON Web Key Sets (JWKS).
//!
//! The crate models the per-entry cache lifecycle: a four-state machine over
//! cached payloads, HTTP cache-semantics evaluation with TTL clamping,
//! retry budgeting with jittered exponential backoff, host allowlisting and
//! SPKI pinning, and a keyed registry dispatching to per-provider entries.
//! Times are plain integers: monotonic instants and durations in
//! milliseconds (`u64`), wall-clock timestamps in milliseconds since the
//! Unix epoch (`i64`).

pub mod client;
pub mod clock;
pub mod entry;
pub mod error;
pub mod jwks;
pub mod manager;
pub mod metrics;
pub mod state;
pub mod registry;
pub mod retry;
pub mod security;
pub mod semantics;
pub mod strutil;

pub use crate::error::Error;
pub use crate::error::JwksResult;
pub use crate::registry::IdentityProviderRegistration;
pub use crate::registry::PersistentSnapshot;
pub use crate::registry::ProviderState;
pub use crate::registry::ProviderStatus;
pub use crate::registry::Registry;
pub use crate::registry::RegistryBuilder;
pub use crate::registry::StatusMetric;
pub use crate::retry::JitterStrategy;
pub use crate::retry::RetryPolicy;
