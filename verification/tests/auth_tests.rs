//! The token manager: the missing-credentials gate, the untagged login body,
//! and the status/body decisions of the grant exchange.

use roux::request::HttpMethod;
use roux::request::UrlBuf;
use roux::util::error::ParseError;
use roux::util::error::RouxError;
use roux::AuthResponse;
use roux::Reddit;

#[test]
fn test_missing_credentials() {
    // no username, no password
    let reddit = Reddit::new("test-agent", "client-id", "client-secret");
    assert!(matches!(reddit.login_request(), Err(RouxError::MissingCredentials)));

    // username alone is not enough
    let reddit = Reddit::new("test-agent", "client-id", "client-secret").username("alice");
    assert!(matches!(reddit.login_request(), Err(RouxError::MissingCredentials)));

    // password alone is not enough
    let reddit = Reddit::new("test-agent", "client-id", "client-secret").password("hunter2");
    assert!(matches!(reddit.login_request(), Err(RouxError::MissingCredentials)));
}

#[test]
fn test_login_request_shape() {
    let reddit = Reddit::new("test-agent", "client-id", "client-secret")
        .username("alice")
        .password("hunter2");
    let req = reddit.login_request().unwrap();
    assert!(matches!(req.method, HttpMethod::Post));
    assert_eq!(req.url.base, "https://www.reddit.com/api/v1/access_token");
    assert_eq!(req.url.query.len(), 0);
    assert_eq!(req.user_agent, "test-agent");
    assert_eq!(req.basic, Some(("client-id".to_string(), "client-secret".to_string())));
    assert_eq!(req.bearer, None);
    assert_eq!(
        req.form,
        vec![
            ("grant_type".to_string(), "password".to_string()),
            ("username".to_string(), "alice".to_string()),
            ("password".to_string(), "hunter2".to_string()),
        ]
    );
}

#[test]
fn test_parse_auth_success_first() {
    // the success shape
    match roux::parse_auth("{\"access_token\": \"abc\"}") {
        Ok(AuthResponse::AuthData { access_token }) => assert_eq!(access_token, "abc"),
        other => panic!("expected the success shape, got {:?}", other),
    }
    // the error shape
    match roux::parse_auth("{\"error\": \"invalid_grant\"}") {
        Ok(AuthResponse::ErrorData { error }) => assert_eq!(error, "invalid_grant"),
        other => panic!("expected the error shape, got {:?}", other),
    }
    // both fields present: the success shape wins, never the reverse
    match roux::parse_auth("{\"access_token\": \"abc\", \"error\": \"spurious\"}") {
        Ok(AuthResponse::AuthData { access_token }) => assert_eq!(access_token, "abc"),
        other => panic!("expected the success shape to win, got {:?}", other),
    }
    // neither field, and not JSON at all
    assert!(matches!(roux::parse_auth("{}"), Err(ParseError::Decode)));
    assert!(matches!(roux::parse_auth("not json"), Err(ParseError::Decode)));
}

#[test]
fn test_login_finish_decisions() {
    let fresh = || {
        Reddit::new("test-agent", "client-id", "client-secret")
            .username("alice")
            .password("hunter2")
            .client
    };

    // 200 with a token body: the session now holds the token
    let client = fresh().login_finish(200, "{\"access_token\": \"abc\"}").unwrap();
    assert_eq!(client.cfg.access_token, Some("abc".to_string()));
    assert_eq!(client.cfg.username, Some("alice".to_string()));

    // 200 with an error body: an Auth failure even though the status is fine
    match fresh().login_finish(200, "{\"error\": \"invalid_grant\"}") {
        Err(RouxError::Auth(msg)) => assert_eq!(msg, "invalid_grant"),
        other => panic!("expected Auth, got {:?}", other),
    }

    // any non-200 status is a Status failure, token body or not
    match fresh().login_finish(201, "{\"access_token\": \"abc\"}") {
        Err(RouxError::Status(st, body)) => {
            assert_eq!(st, 201);
            assert_eq!(body, "{\"access_token\": \"abc\"}");
        },
        other => panic!("expected Status, got {:?}", other),
    }

    // 200 with an unusable body
    assert!(matches!(
        fresh().login_finish(200, "[]"),
        Err(RouxError::Parse(ParseError::Decode))
    ));
}

#[test]
fn test_get_always_carries_raw_json() {
    let reddit = Reddit::new("test-agent", "client-id", "client-secret");
    // no cursor, no caller query at all
    let req = reddit.client.get(&UrlBuf::new("https://x/y.json"));
    assert!(matches!(req.method, HttpMethod::Get));
    assert_eq!(req.url.query, vec![("raw_json".to_string(), "1".to_string())]);

    // raw_json comes before every caller-supplied pair
    let mut url = UrlBuf::new("https://x/y.json");
    url.append_pair("limit", "5");
    let req = reddit.client.get(&url);
    assert_eq!(req.url.query[0], ("raw_json".to_string(), "1".to_string()));
    assert_eq!(req.url.query[1], ("limit".to_string(), "5".to_string()));
}

#[test]
fn test_bearer_reused_until_replaced() {
    let client = Reddit::new("test-agent", "client-id", "client-secret")
        .username("alice")
        .password("hunter2")
        .client
        .login_finish(200, "{\"access_token\": \"tok\"}")
        .unwrap();
    let url = UrlBuf::new("https://oauth.reddit.com/api/v1/me");
    assert_eq!(client.get(&url).bearer, Some("tok".to_string()));
    assert_eq!(client.get(&url).bearer, Some("tok".to_string()));
    assert_eq!(client.post(&url, Vec::new()).bearer, Some("tok".to_string()));

    // an anonymous session attaches none
    let anon = Reddit::new("test-agent", "client-id", "client-secret").client;
    assert_eq!(anon.get(&url).bearer, None);
}
