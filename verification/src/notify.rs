//! The webhook notification URL.
//!
//! After a successful change, an optional collaborator is told the new
//! address with a GET request to a caller-supplied URL template; the
//! template carries a placeholder that the address replaces.  Sending the
//! request is the caller's business and never fails the reconciliation;
//! building the URL is verified here.

use vstd::prelude::*;

use crate::text::chars_of;
use crate::text::chars_to_string;
use crate::text::replace_chars;
use crate::text::replace_seq;

verus! {

/// The placeholder in a webhook URL template that the new address replaces.
pub open spec fn ip_placeholder() -> Seq<char> {
    "{IP_ADDRESS}"@
}

/// Builds the webhook URL: every occurrence of the placeholder in the
/// template is replaced by the new address.
pub fn notify_url(url_template: &str, new_ip: &str) -> (u: String)
    ensures
        u@ == replace_seq(url_template@, ip_placeholder(), new_ip@),
{
    let t = chars_of(url_template);
    let pat = chars_of("{IP_ADDRESS}");
    let sub = chars_of(new_ip);
    let out = replace_chars(t.as_slice(), pat.as_slice(), sub.as_slice());
    chars_to_string(&out)
}

} // verus!
