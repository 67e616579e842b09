//! Core logic of a dynamic-DNS updater: classification of observed IP
//! addresses, the per-family reconciliation state machine that decides when a
//! provider record must be created or modified, interpretation of the
//! provider's status codes (including the stale-identity recovery protocol),
//! and the exponential-backoff connectivity probe that gates each cycle.

pub mod args;
pub mod dnspod;
pub mod error;
pub mod ip;
pub mod notify;
pub mod probe;
pub mod text;
pub mod utils;

pub use dnspod::DdnsState;
pub use error::DdnsError;
pub use probe::NetworkProbe;
pub use probe::NetworkStatus;
