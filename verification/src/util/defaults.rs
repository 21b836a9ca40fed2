//! Default values: the empty string used where a payload field is absent,
//! and the anonymous session used by the read-only facades.

use vstd::prelude::*;

use crate::client::build_http_client;
use crate::config::Config;
use crate::RedditClient;

verus! {

/// String function for defaults: the empty string.
pub fn default_string() -> (s: String)
    ensures
        s@ == ""@,
{
    "".to_owned()
}

/// Default client: an anonymous session with the stock user agent and no
/// application identity — good for read-only calls.
pub fn default_client() -> (c: RedditClient)
    ensures
        c.cfg.user_agent@ == "roux/rust"@,
        c.cfg.client_id@ == ""@,
        c.cfg.client_secret@ == ""@,
        c.cfg.username is None,
        c.cfg.password is None,
        c.cfg.access_token is None,
{
    RedditClient::new(build_http_client(), Config::new("roux/rust", "", ""))
}

} // verus!
