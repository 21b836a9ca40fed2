//! The session configuration: application identity, optional user
//! credentials, and the bearer token once a login has succeeded.

use vstd::prelude::*;

use crate::util::text::clone_opt_string;

verus! {

/// Credentials and token state of one session. Immutable once constructed but
/// for the token, which a successful login fills in on a fresh value: a
/// refreshed token never propagates to copies handed out earlier.
#[derive(Debug)]
pub struct Config {
    /// The user-agent string sent with every request.
    pub user_agent: String,
    /// The application's client identifier.
    pub client_id: String,
    /// The application's client secret.
    pub client_secret: String,
    /// The account name; required only for the user-context flow.
    pub username: Option<String>,
    /// The account password; required only for the user-context flow.
    pub password: Option<String>,
    /// The bearer token, absent until a login succeeds.
    pub access_token: Option<String>,
}

impl Config {
    /// A configuration with the given application identity and no user
    /// credentials: good for anonymous read-only calls.
    pub fn new(user_agent: &str, client_id: &str, client_secret: &str) -> (c: Config)
        ensures
            c.user_agent@ == user_agent@,
            c.client_id@ == client_id@,
            c.client_secret@ == client_secret@,
            c.username is None,
            c.password is None,
            c.access_token is None,
    {
        Config {
            user_agent: user_agent.to_owned(),
            client_id: client_id.to_owned(),
            client_secret: client_secret.to_owned(),
            username: None,
            password: None,
            access_token: None,
        }
    }

    /// A copy of this configuration, field for field.
    pub fn duplicate(&self) -> (c: Config)
        ensures
            c == *self,
    {
        Config {
            user_agent: self.user_agent.clone(),
            client_id: self.client_id.clone(),
            client_secret: self.client_secret.clone(),
            username: clone_opt_string(&self.username),
            password: clone_opt_string(&self.password),
            access_token: clone_opt_string(&self.access_token),
        }
    }
}

} // verus!
