//! Where the other services of the platform are found.

use vstd::prelude::*;
use vstd::string::StringExecFns;

verus! {

/// The address of the authorization service when none is configured.
pub open spec fn default_auth_url() -> Seq<char> {
    "http://localhost:8080"@
}

/// The address of the authorization service: the configured one, and the
/// local default without one.
pub fn auth_url(configured: Option<String>) -> (url: String)
    ensures
        url@ == match configured {
            Some(address) => address@,
            None => default_auth_url(),
        },
{
    match configured {
        Some(address) => address,
        None => String::from_str("http://localhost:8080"),
    }
}

} // verus!
