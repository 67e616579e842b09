//! The error taxonomy of the updater.
//!
//! Local rejection of malformed address text, transport failures, bodies
//! that did not decode (kept whole for diagnosis), and errors the provider
//! itself reported as a status code and message.

use vstd::prelude::*;

verus! {

/// A failure of one reconciliation cycle or provider call.
#[derive(Debug)]
pub enum DdnsError {
    /// The transport failed before a body was decoded; the payload describes
    /// the network failure.
    Network(String),
    /// A response body did not match the expected shape; the raw body is
    /// kept for diagnosis.
    ApiResponseDecode { body: String },
    /// The provider rejected the request, reporting a status code and
    /// message.
    Api { code: String, message: String },
    /// The observed address text is neither IPv4 nor IPv6; the cycle skips
    /// this family without any remote call.
    InvalidIpFormat(String),
}

} // verus!
