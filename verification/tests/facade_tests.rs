//! The per-resource facades: the exact requests they build, and pagination
//! chained across two pages of a recorded fixture.

use roux::comments::normalize;
use roux::comments::EndpointKind;
use roux::models::Me;
use roux::models::Subreddit;
use roux::models::Subreddits;
use roux::models::User;
use roux::request::HttpMethod;
use roux::util::cursor::FeedOption;
use roux::util::cursor::TimePeriod;
use roux::util::defaults::default_client;
use roux::util::defaults::default_string;
use roux::util::error::RouxError;
use roux::Reddit;

fn pair(k: &str, v: &str) -> (String, String) {
    (k.to_string(), v.to_string())
}

#[test]
fn test_defaults() {
    assert_eq!(default_string(), "");
    let client = default_client();
    assert_eq!(client.cfg.user_agent, "roux/rust");
    assert_eq!(client.cfg.client_id, "");
    assert_eq!(client.cfg.client_secret, "");
    assert!(client.cfg.access_token.is_none());
}

#[test]
fn test_subreddit_feed_requests() {
    let sub = Subreddit::new("astolfo");
    assert_eq!(sub.name, "astolfo");
    assert_eq!(sub.url.base, "https://www.reddit.com/r/astolfo/");

    let hot = sub.hot_request(25, None);
    assert!(matches!(hot.method, HttpMethod::Get));
    assert_eq!(hot.url.base, "https://www.reddit.com/r/astolfo/hot.json");
    assert_eq!(hot.url.query, vec![pair("raw_json", "1"), pair("limit", "25")]);
    assert_eq!(hot.user_agent, "roux/rust");
    assert_eq!(hot.bearer, None);

    let top = sub.top_request(10, Some(FeedOption::new().period(TimePeriod::ThisMonth)));
    assert_eq!(top.url.base, "https://www.reddit.com/r/astolfo/top.json");
    assert_eq!(
        top.url.query,
        vec![pair("raw_json", "1"), pair("limit", "10"), pair("t", "month")]
    );

    let rising = sub.rising_request(30, None);
    assert_eq!(rising.url.base, "https://www.reddit.com/r/astolfo/rising.json");

    let latest = sub.latest_request(5, None);
    assert_eq!(latest.url.base, "https://www.reddit.com/r/astolfo/new.json");

    let about = sub.about_request();
    assert_eq!(about.url.base, "https://www.reddit.com/r/astolfo/about/.json");

    let mods = sub.moderators_request();
    assert_eq!(mods.url.base, "https://www.reddit.com/r/astolfo/about/moderators/.json");
}

#[test]
fn test_subreddit_comment_requests() {
    let sub = Subreddit::new("astolfo");

    let (latest, kind) = sub.latest_comments_request(None, Some(25));
    assert_eq!(latest.url.base, "https://www.reddit.com/r/astolfo/comments.json");
    assert_eq!(latest.url.query, vec![pair("raw_json", "1"), pair("limit", "25")]);
    assert_eq!(kind, EndpointKind::ForumScoped);

    let (article, kind) = sub.article_comments_request("abc123", Some(2), Some(25));
    assert_eq!(article.url.base, "https://www.reddit.com/r/astolfo/comments/abc123.json");
    assert_eq!(
        article.url.query,
        vec![pair("raw_json", "1"), pair("depth", "2"), pair("limit", "25")]
    );
    assert_eq!(kind, EndpointKind::PostScoped);
}

#[test]
fn test_subreddits_search_request() {
    let client = default_client();
    let req = Subreddits::search_request(&client, "rust", Some(3), None);
    assert_eq!(req.url.base, "https://www.reddit.com/subreddits/search.json");
    assert_eq!(
        req.url.query,
        vec![pair("raw_json", "1"), pair("q", "rust"), pair("limit", "3")]
    );
}

#[test]
fn test_user_requests() {
    let user = User::new("beneater");
    assert_eq!(user.user, "beneater");

    let overview = user.overview_request(None);
    assert_eq!(overview.url.base, "https://www.reddit.com/user/beneater/overview/.json");
    assert_eq!(overview.url.query, vec![pair("raw_json", "1")]);

    let submitted = user.submitted_request(None);
    assert_eq!(submitted.url.base, "https://www.reddit.com/user/beneater/submitted/.json");

    let comments = user.comments_request(Some(FeedOption::new().after("t1_x")));
    assert_eq!(comments.url.base, "https://www.reddit.com/user/beneater/comments/.json");
    assert_eq!(comments.url.query, vec![pair("raw_json", "1"), pair("after", "t1_x")]);

    let about = user.about_request(None);
    assert_eq!(about.url.base, "https://www.reddit.com/user/beneater/about/.json");
}

fn authed_me() -> Me {
    let client = Reddit::new("test-agent", "client-id", "client-secret")
        .username("alice")
        .password("hunter2")
        .client
        .login_finish(200, "{\"access_token\": \"tok\"}")
        .unwrap();
    Me::new(&client)
}

#[test]
fn test_me_requests() {
    let me = authed_me();

    let req = me.me_request();
    assert_eq!(req.url.base, "https://oauth.reddit.com/api/v1/me");
    assert_eq!(req.bearer, Some("tok".to_string()));
    assert_eq!(req.user_agent, "test-agent");

    let inbox = me.inbox_request();
    assert_eq!(inbox.url.base, "https://oauth.reddit.com/message/inbox");

    let unread = me.unread_request();
    assert_eq!(unread.url.base, "https://oauth.reddit.com/message/unread");

    let saved = me.saved_request(Some(FeedOption::new().limit(5))).unwrap();
    assert_eq!(saved.url.base, "https://oauth.reddit.com/user/alice/saved/.json");
    assert_eq!(saved.url.query, vec![pair("raw_json", "1"), pair("limit", "5")]);

    let upvoted = me.upvoted_request(None).unwrap();
    assert_eq!(upvoted.url.base, "https://oauth.reddit.com/user/alice/upvoted/.json");

    let downvoted = me.downvoted_request(None).unwrap();
    assert_eq!(downvoted.url.base, "https://oauth.reddit.com/user/alice/downvoted/.json");

    // a session without a username cannot read its per-user listings
    let anon = Me::new(&default_client());
    assert!(matches!(anon.saved_request(None), Err(RouxError::MissingCredentials)));
}

#[test]
fn test_me_post_requests() {
    let me = authed_me();

    let link = me.submit_link_request("TITLE", "https://example.org", "astolfo");
    assert!(matches!(link.method, HttpMethod::Post));
    assert_eq!(link.url.base, "https://oauth.reddit.com/api/submit/.json");
    assert_eq!(
        link.form,
        vec![
            pair("kind", "link"),
            pair("title", "TITLE"),
            pair("url", "https://example.org"),
            pair("sr", "astolfo"),
        ]
    );

    let text = me.submit_text_request("TITLE", "BODY", "astolfo");
    assert_eq!(
        text.form,
        vec![pair("kind", "self"), pair("title", "TITLE"), pair("text", "BODY"), pair("sr", "astolfo")]
    );

    let rich = me.submit_richtext_request("TITLE", "{\"document\":[]}", "astolfo");
    assert_eq!(
        rich.form,
        vec![
            pair("kind", "self"),
            pair("title", "TITLE"),
            pair("richtext_json", "{\"document\":[]}"),
            pair("sr", "astolfo"),
        ]
    );

    let friend = me.add_subreddit_friend_request("bob", "moderator", "astolfo");
    assert_eq!(friend.url.base, "https://oauth.reddit.com/r/astolfo/api/friend/.json");
    assert_eq!(friend.form, vec![pair("name", "bob"), pair("type", "moderator")]);

    let unfriend = me.remove_subreddit_friend_request("bob", "moderator", "astolfo");
    assert_eq!(unfriend.url.base, "https://oauth.reddit.com/r/astolfo/api/unfriend/.json");

    let message = me.compose_message_request("bob", "hi", "hello there");
    assert_eq!(message.url.base, "https://oauth.reddit.com/api/compose/.json");
    assert_eq!(
        message.form,
        vec![
            pair("api_type", "json"),
            pair("subject", "hi"),
            pair("text", "hello there"),
            pair("to", "bob"),
        ]
    );

    let read = me.mark_read_request("t4_1,t4_2");
    assert_eq!(read.url.base, "https://oauth.reddit.com/api/read_message/.json");
    assert_eq!(read.form, vec![pair("id", "t4_1,t4_2")]);

    let unread = me.mark_unread_request("t4_1");
    assert_eq!(unread.url.base, "https://oauth.reddit.com/api/unread_message/.json");

    let comment = me.comment_request("nice", "t3_parent");
    assert_eq!(comment.url.base, "https://oauth.reddit.com/api/comment/.json");
    assert_eq!(comment.form, vec![pair("text", "nice"), pair("parent", "t3_parent")]);

    let edit = me.edit_request("fixed", "t1_thing");
    assert_eq!(edit.url.base, "https://oauth.reddit.com/api/editusertext/.json");
    assert_eq!(edit.form, vec![pair("text", "fixed"), pair("thing_id", "t1_thing")]);
}

#[test]
fn test_friend_finish() {
    assert_eq!(Me::friend_finish("{\"success\": true}"), Ok(true));
    assert_eq!(Me::friend_finish("{\"success\": false}"), Ok(false));
    assert!(Me::friend_finish("{}").is_err());
    assert!(Me::friend_finish("not json").is_err());
}

#[test]
fn test_logout() {
    let me = authed_me();
    let req = me.logout_request().unwrap();
    assert!(matches!(req.method, HttpMethod::Post));
    assert_eq!(req.url.base, "https://www.reddit.com/api/v1/revoke_token");
    assert_eq!(req.basic, Some(("client-id".to_string(), "client-secret".to_string())));
    assert_eq!(req.form, vec![pair("access_token", "tok")]);

    // success is 204 specifically
    assert_eq!(Me::logout_finish(204, String::new()), Ok(()));
    assert!(matches!(Me::logout_finish(200, String::new()), Err(RouxError::Status(200, _))));

    // nothing to revoke without a token
    let anon = Me::new(&default_client());
    assert!(matches!(anon.logout_request(), Err(RouxError::MissingCredentials)));
}

#[test]
fn test_auth_subreddit_shares_session() {
    let reddit = Reddit::new("test-agent", "client-id", "client-secret");
    let sub = reddit.auth_subreddit("rust");
    assert_eq!(sub.name, "rust");
    assert_eq!(sub.url.base, "https://www.reddit.com/r/rust/");
    assert_eq!(sub.client.cfg.user_agent, "test-agent");
}

fn page_fixture(after: &str, id_a: &str, id_b: &str) -> String {
    let node_a = format!("{{\"kind\":\"t1\",\"data\":{{\"id\":\"{}\",\"replies\":\"\"}}}}", id_a);
    let node_b = format!("{{\"kind\":\"t1\",\"data\":{{\"id\":\"{}\",\"replies\":\"\"}}}}", id_b);
    format!(
        "{{\"kind\":\"Listing\",\"data\":{{\"after\":\"{}\",\"children\":[{},{}]}}}}",
        after, node_a, node_b
    )
}

#[test]
fn test_pagination_chained_pages_disjoint() {
    // two recorded pages: the second is what the upstream serves for the
    // first page's output cursor
    let page1 = page_fixture("t1_cursor", "aaa", "bbb");
    let page2 = page_fixture("t1_done", "ccc", "ddd");

    let tree1 = normalize(&page1, EndpointKind::ForumScoped).unwrap();
    let cursor = tree1.after.clone().unwrap();
    assert_eq!(cursor, "t1_cursor");

    // the next request carries exactly that cursor
    let sub = Subreddit::new("astolfo");
    let (req2, _) = sub.latest_comments_request(None, Some(25));
    let mut url = req2.url;
    FeedOption::new().after(&cursor).build_url(&mut url);
    assert!(url.query.contains(&pair("after", "t1_cursor")));

    // and the two pages' children do not overlap
    let tree2 = normalize(&page2, EndpointKind::ForumScoped).unwrap();
    let ids1: Vec<String> = tree1.children.iter().filter_map(|n| n.id.clone()).collect();
    let ids2: Vec<String> = tree2.children.iter().filter_map(|n| n.id.clone()).collect();
    assert_eq!(ids1.len(), 2);
    assert_eq!(ids2.len(), 2);
    for id in &ids1 {
        assert!(!ids2.contains(id));
    }
}
