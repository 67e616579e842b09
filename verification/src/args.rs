//! The inbound configuration: which record to keep synchronized, the
//! provider credential, how often to check, and the optional webhook.
//! Parsing the command line or environment is the caller's business; the
//! library receives the plain values.

use vstd::prelude::*;

verus! {

/// Configuration of one updater run.
#[derive(Debug)]
pub struct Args {
    /// The domain name, e.g. `example.com`.
    pub domain: String,
    /// The sub-domain name, e.g. `home`.
    pub sub_domain: String,
    /// The provider API token, in `ID,Token` format.
    pub token: String,
    /// Check interval in seconds; zero means a single run.
    pub interval: u64,
    /// Whether the IPv6 (`AAAA`) record is updated too.
    pub ipv6: bool,
    /// The webhook URL template told about address changes, when set.
    pub http_url: Option<String>,
    /// The webhook bearer token, when set.
    pub http_token: Option<String>,
}

impl Args {
    /// Configuration with the default interval of ten seconds, IPv6 off,
    /// and no webhook.
    pub fn new(domain: String, sub_domain: String, token: String) -> (a: Args)
        ensures
            a.domain == domain,
            a.sub_domain == sub_domain,
            a.token == token,
            a.interval == 10,
            a.ipv6 == false,
            a.http_url is None,
            a.http_token is None,
    {
        Args {
            domain,
            sub_domain,
            token,
            interval: 10,
            ipv6: false,
            http_url: None,
            http_token: None,
        }
    }
}

} // verus!
