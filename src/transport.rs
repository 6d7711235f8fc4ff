//! The HTTP transport that requests go through: reqwest's client.

use vstd::prelude::*;

verus! {

#[verifier::external_type_specification]
#[verifier::external_body]
pub struct ExClient(reqwest::Client);

/// Relies on reqwest's `ClientBuilder::build` after `user_agent`: it makes a
/// transport handle, or fails with an error, here given as its message (a
/// user agent that is no valid header value, a TLS backend or a system
/// configuration that cannot be loaded). Which of the two comes depends on
/// the machine, so nothing is promised of it.
#[verifier::external_body]
pub(crate) fn build_transport(user_agent: &str) -> (r: Result<reqwest::Client, String>) {
    match reqwest::Client::builder().user_agent(user_agent).build() {
        Ok(client) => Ok(client),
        Err(e) => Err(e.to_string()),
    }
}

} // verus!
