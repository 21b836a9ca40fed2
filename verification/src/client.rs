//! The transport handle. The library holds and hands around reqwest's
//! blocking client but never sends through it itself; callers perform the
//! round trip and hand the raw status and body back in.

use vstd::prelude::*;

verus! {

/// reqwest's blocking HTTP client, declared so the session can hold the
/// transport handle as an opaque value.
#[verifier::external_type_specification]
#[verifier::external_body]
pub struct ExClient(reqwest::blocking::Client);

/// Relies on reqwest::blocking::ClientBuilder::new().build(): a client with
/// default configuration. Panics when the transport cannot be set up — a
/// construction-time defect of the process environment, not a runtime error.
#[verifier::external_body]
pub fn build_http_client() -> reqwest::blocking::Client {
    reqwest::blocking::ClientBuilder::new().build().expect("could not build HTTP client")
}

/// Relies on reqwest::blocking::Client::clone: the handle is reference
/// counted, and clones share one connection pool.
#[verifier::external_body]
pub fn clone_http_client(c: &reqwest::blocking::Client) -> reqwest::blocking::Client {
    c.clone()
}

} // verus!
