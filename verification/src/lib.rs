//! Core of a Reddit API client, with its behaviour stated in contracts:
//! credential and token lifecycle, request building and response
//! classification, listing pagination cursors, and normalization of the two
//! wire shapes that comment-tree endpoints return.
//!
//! The library builds requests as plain values and classifies plain
//! responses; performing the network round trip is the caller's part.
#![allow(unused_imports)]

use vstd::prelude::*;

pub mod client;
pub mod comments;
pub mod config;
pub mod json;
pub mod models;
pub mod request;
pub mod util;

pub use models::Me;
pub use models::Subreddit;
pub use models::Subreddits;
pub use models::User;

use client::build_http_client;
use config::Config;
use json::json_str_field;
use json::get_str_field;
use request::opt_pair_view;
use request::pairs_view;
use request::HttpMethod;
use request::HttpRequest;
use request::UrlBuf;
use util::error::ParseError;
use util::error::RouxError;
use util::text::clone_opt_string;

verus! {

/// Client to use OAuth with Reddit: gathers application identity and user
/// credentials, builds the password-grant exchange, and yields an
/// authenticated session from its response.
pub struct Reddit {
    /// The session being assembled.
    pub client: RedditClient,
}

/// The two body shapes the authorization endpoint returns: a success shape
/// carrying the access token, or an error shape carrying an error code
/// string. They are valid JSON objects told apart only by which field is
/// present.
#[derive(Debug)]
pub enum AuthResponse {
    /// The grant succeeded.
    AuthData {
        /// The bearer token the session will reuse from here on.
        access_token: String,
    },
    /// The grant was rejected in-body; the status alone does not say so.
    ErrorData {
        /// The upstream error code, handed on verbatim.
        error: String,
    },
}

/// Reads a login response body: the success shape is tried first and the
/// error shape only as the fallback, never the reverse, since a successful
/// payload could incidentally satisfy a looser error schema. A body with
/// neither field does not decode.
pub fn parse_auth(body: &str) -> (r: Result<AuthResponse, ParseError>)
    ensures
        match json_str_field(body@, "access_token"@) {
            Some(t) => match r {
                Ok(AuthResponse::AuthData { access_token }) => access_token@ == t,
                _ => false,
            },
            None => match json_str_field(body@, "error"@) {
                Some(e) => match r {
                    Ok(AuthResponse::ErrorData { error }) => error@ == e,
                    _ => false,
                },
                None => r == Err::<AuthResponse, ParseError>(ParseError::Decode),
            },
        },
{
    if let Some(access_token) = get_str_field(body, "access_token") {
        return Ok(AuthResponse::AuthData { access_token });
    }
    if let Some(error) = get_str_field(body, "error") {
        return Ok(AuthResponse::ErrorData { error });
    }
    Err(ParseError::Decode)
}

/// The exact request of the password-grant exchange for a session in state
/// `cfg`: a POST to the authorization endpoint, client identity as basic
/// credentials, the grant as the form body, user agent always attached.
pub open spec fn is_login_request(q: HttpRequest, cfg: Config) -> bool {
    &&& q.method is Post
    &&& q.url.base@ == "https://www.reddit.com/api/v1/access_token"@
    &&& q.url.query_view() == Seq::<(Seq<char>, Seq<char>)>::empty()
    &&& q.user_agent@ == cfg.user_agent@
    &&& q.bearer == cfg.access_token
    &&& opt_pair_view(q.basic) == Some((cfg.client_id@, cfg.client_secret@))
    &&& pairs_view(q.form@) == seq![
        ("grant_type"@, "password"@),
        ("username"@, cfg.username->Some_0@),
        ("password"@, cfg.password->Some_0@),
    ]
}

impl Reddit {
    /// Creates a `Reddit` instance with user_agent, client_id, and
    /// client_secret, over a default transport handle.
    pub fn new(user_agent: &str, client_id: &str, client_secret: &str) -> (r: Reddit)
        ensures
            r.client.cfg.user_agent@ == user_agent@,
            r.client.cfg.client_id@ == client_id@,
            r.client.cfg.client_secret@ == client_secret@,
            r.client.cfg.username is None,
            r.client.cfg.password is None,
            r.client.cfg.access_token is None,
    {
        Reddit {
            client: RedditClient::new(build_http_client(), Config::new(user_agent, client_id, client_secret)),
        }
    }

    /// Sets the internal transport client to make requests with.
    pub fn with_client(self, client: reqwest::blocking::Client) -> (r: Reddit)
        ensures
            r.client.cfg == self.client.cfg,
    {
        Reddit { client: RedditClient { inner: client, cfg: self.client.cfg } }
    }

    /// Sets username.
    pub fn username(self, username: &str) -> (r: Reddit)
        ensures
            r.client.cfg.username.deep_view() == Some(username@),
            r.client.cfg.user_agent == self.client.cfg.user_agent,
            r.client.cfg.client_id == self.client.cfg.client_id,
            r.client.cfg.client_secret == self.client.cfg.client_secret,
            r.client.cfg.password == self.client.cfg.password,
            r.client.cfg.access_token == self.client.cfg.access_token,
    {
        Reddit {
            client: RedditClient {
                inner: self.client.inner,
                cfg: Config { username: Some(username.to_owned()), ..self.client.cfg },
            },
        }
    }

    /// Sets password.
    pub fn password(self, password: &str) -> (r: Reddit)
        ensures
            r.client.cfg.password.deep_view() == Some(password@),
            r.client.cfg.user_agent == self.client.cfg.user_agent,
            r.client.cfg.client_id == self.client.cfg.client_id,
            r.client.cfg.client_secret == self.client.cfg.client_secret,
            r.client.cfg.username == self.client.cfg.username,
            r.client.cfg.access_token == self.client.cfg.access_token,
    {
        Reddit {
            client: RedditClient {
                inner: self.client.inner,
                cfg: Config { password: Some(password.to_owned()), ..self.client.cfg },
            },
        }
    }

    /// The password-grant request for this session, or `MissingCredentials`
    /// when username or password is absent — found here, before anything is
    /// sent.
    pub fn login_request(&self) -> (r: Result<HttpRequest, RouxError>)
        ensures
            r is Ok <==> (self.client.cfg.username is Some && self.client.cfg.password is Some),
            r is Err ==> r == Err::<HttpRequest, RouxError>(RouxError::MissingCredentials),
            r is Ok ==> is_login_request(r->Ok_0, self.client.cfg),
    {
        self.client.login_request()
    }

    /// Turns the password-grant response into the authenticated user facade.
    /// The decisions are those of [`RedditClient::login_finish`]; the facade
    /// copies the freshly tokened session.
    pub fn login_finish(self, status: u16, body: &str) -> (r: Result<models::Me, RouxError>)
        ensures
            status != 200 ==> match r {
                Err(RouxError::Status(st, b)) => st == status && b@ == body@,
                _ => false,
            },
            status == 200 ==> match json_str_field(body@, "access_token"@) {
                Some(t) => match r {
                    Ok(m) => {
                        &&& m.client.cfg.access_token.deep_view() == Some(t)
                        &&& m.client.cfg.user_agent == self.client.cfg.user_agent
                        &&& m.client.cfg.client_id == self.client.cfg.client_id
                        &&& m.client.cfg.client_secret == self.client.cfg.client_secret
                        &&& m.client.cfg.username == self.client.cfg.username
                        &&& m.client.cfg.password == self.client.cfg.password
                    },
                    _ => false,
                },
                None => match json_str_field(body@, "error"@) {
                    Some(e) => match r {
                        Err(RouxError::Auth(msg)) => msg@ == e,
                        _ => false,
                    },
                    None => r == Err::<models::Me, RouxError>(RouxError::Parse(ParseError::Decode)),
                },
            },
    {
        match self.client.login_finish(status, body) {
            Ok(c) => Ok(models::Me::new(&c)),
            Err(e) => Err(e),
        }
    }

    /// Create a new authenticated `Subreddit` instance from this session.
    /// This allows the same `Reddit` instance to serve multiple subreddits.
    pub fn auth_subreddit(&self, name: &str) -> (s: models::Subreddit)
        ensures
            s.name@ == name@,
            s.url.base@ == "https://www.reddit.com/r/"@ + name@ + "/"@,
            s.url.query@.len() == 0,
            s.client.cfg == self.client.cfg,
    {
        models::Subreddit::new_oauth(name, &self.client)
    }
}

/// Session state shared by every facade built from one authenticated client:
/// the transport handle and the configuration with the bearer token. Facades
/// receive a copy by value; a later fresh login yields a new session rather
/// than mutating the old one.
#[derive(Debug)]
pub struct RedditClient {
    /// The transport handle the caller will send through.
    pub inner: reqwest::blocking::Client,
    /// Credentials and token state.
    pub cfg: Config,
}

impl RedditClient {
    /// A session over the given transport handle and configuration.
    pub fn new(client: reqwest::blocking::Client, cfg: Config) -> (c: Self)
        ensures
            c.cfg == cfg,
    {
        Self { inner: client, cfg }
    }

    /// A copy of this session: same configuration, shared transport pool.
    pub fn duplicate(&self) -> (c: Self)
        ensures
            c.cfg == self.cfg,
    {
        Self { inner: client::clone_http_client(&self.inner), cfg: self.cfg.duplicate() }
    }

    /// Builds a GET request: user agent always attached, the bearer token
    /// attached exactly when the session holds one, and `raw_json=1` put
    /// before every caller-supplied query parameter so the upstream does not
    /// HTML-escape text fields.
    pub fn get(&self, url: &UrlBuf) -> (r: HttpRequest)
        ensures
            r.method is Get,
            r.user_agent@ == self.cfg.user_agent@,
            r.bearer == self.cfg.access_token,
            r.basic is None,
            r.form@.len() == 0,
            r.url.base@ == url.base@,
            r.url.query_view() == seq![("raw_json"@, "1"@)] + url.query_view(),
    {
        let mut u = UrlBuf::new(url.base.as_str());
        u.append_pair("raw_json", "1");
        u.append_pairs(&url.query);
        assert(u.query_view() =~= seq![("raw_json"@, "1"@)] + url.query_view());
        HttpRequest {
            method: HttpMethod::Get,
            url: u,
            user_agent: self.cfg.user_agent.clone(),
            bearer: clone_opt_string(&self.cfg.access_token),
            basic: None,
            form: Vec::new(),
        }
    }

    /// Builds a POST request: user agent always attached, the bearer token
    /// attached exactly when the session holds one, the form body as given.
    /// The URL is carried over unchanged.
    pub fn post(&self, url: &UrlBuf, form: Vec<(String, String)>) -> (r: HttpRequest)
        ensures
            r.method is Post,
            r.user_agent@ == self.cfg.user_agent@,
            r.bearer == self.cfg.access_token,
            r.basic is None,
            r.form == form,
            r.url.base@ == url.base@,
            r.url.query@ == url.query@,
    {
        HttpRequest {
            method: HttpMethod::Post,
            url: url.duplicate(),
            user_agent: self.cfg.user_agent.clone(),
            bearer: clone_opt_string(&self.cfg.access_token),
            basic: None,
            form,
        }
    }

    /// The password-grant request for this session, or `MissingCredentials`
    /// when username or password is absent — found here, before anything is
    /// sent.
    pub fn login_request(&self) -> (r: Result<HttpRequest, RouxError>)
        ensures
            r is Ok <==> (self.cfg.username is Some && self.cfg.password is Some),
            r is Err ==> r == Err::<HttpRequest, RouxError>(RouxError::MissingCredentials),
            r is Ok ==> is_login_request(r->Ok_0, self.cfg),
    {
        match (&self.cfg.username, &self.cfg.password) {
            (Some(username), Some(password)) => {
                let mut form: Vec<(String, String)> = Vec::new();
                form.push(("grant_type".to_owned(), "password".to_owned()));
                form.push(("username".to_owned(), username.clone()));
                form.push(("password".to_owned(), password.clone()));
                assert(pairs_view(form@) =~= seq![
                    ("grant_type"@, "password"@),
                    ("username"@, self.cfg.username->Some_0@),
                    ("password"@, self.cfg.password->Some_0@),
                ]);
                let url = UrlBuf::new("https://www.reddit.com/api/v1/access_token");
                assert(url.query_view() =~= Seq::<(Seq<char>, Seq<char>)>::empty());
                Ok(HttpRequest {
                    method: HttpMethod::Post,
                    url,
                    user_agent: self.cfg.user_agent.clone(),
                    bearer: clone_opt_string(&self.cfg.access_token),
                    basic: Some((self.cfg.client_id.clone(), self.cfg.client_secret.clone())),
                    form,
                })
            },
            _ => Err(RouxError::MissingCredentials),
        }
    }

    /// Interprets the response of the password-grant exchange. Only status
    /// 200 reaches the body check: anything else is a transport-classified
    /// `Status` failure. At 200 the body decides — the upstream returns 200
    /// for some rejected grants, so an error-shaped body is an `Auth` failure
    /// even then. On success the session holds the token from the body, and
    /// everything else in it is unchanged.
    pub fn login_finish(self, status: u16, body: &str) -> (r: Result<RedditClient, RouxError>)
        ensures
            status != 200 ==> match r {
                Err(RouxError::Status(st, b)) => st == status && b@ == body@,
                _ => false,
            },
            status == 200 ==> match json_str_field(body@, "access_token"@) {
                Some(t) => match r {
                    Ok(c) => {
                        &&& c.cfg.access_token.deep_view() == Some(t)
                        &&& c.cfg.user_agent == self.cfg.user_agent
                        &&& c.cfg.client_id == self.cfg.client_id
                        &&& c.cfg.client_secret == self.cfg.client_secret
                        &&& c.cfg.username == self.cfg.username
                        &&& c.cfg.password == self.cfg.password
                    },
                    _ => false,
                },
                None => match json_str_field(body@, "error"@) {
                    Some(e) => match r {
                        Err(RouxError::Auth(msg)) => msg@ == e,
                        _ => false,
                    },
                    None => r == Err::<RedditClient, RouxError>(RouxError::Parse(ParseError::Decode)),
                },
            },
    {
        if status != 200 {
            return Err(RouxError::Status(status, body.to_owned()));
        }
        match parse_auth(body) {
            Ok(AuthResponse::AuthData { access_token }) => Ok(RedditClient {
                inner: self.inner,
                cfg: Config { access_token: Some(access_token), ..self.cfg },
            }),
            Ok(AuthResponse::ErrorData { error }) => Err(RouxError::Auth(error)),
            Err(e) => Err(RouxError::Parse(e)),
        }
    }
}

} // verus!
