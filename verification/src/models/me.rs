//! The authenticated user's facade: each operation of the `me` scope as the
//! exact request it sends, plus the readers of its small responses. The
//! facade carries a copied session and a base URL and delegates everything
//! else to the dispatcher.

use vstd::prelude::*;
use vstd::string::StringExecFns;

use crate::json::get_bool_field;
use crate::json::json_bool_field;
use crate::request::is_session_get;
use crate::request::is_session_post;
use crate::request::pairs_view;
use crate::request::HttpMethod;
use crate::request::HttpRequest;
use crate::request::UrlBuf;
use crate::util::cursor::spec_opt_params;
use crate::util::cursor::FeedOption;
use crate::util::error::ParseError;
use crate::util::error::RouxError;
use crate::util::text::clone_opt_string;
use crate::util::url::build_oauth;
use crate::util::url::spec_join;
use crate::util::url::spec_strip_slash;
use crate::util::url::strs_view;
use crate::RedditClient;

verus! {

/// Me: the operations available to the authenticated user.
pub struct Me {
    /// The session copy this facade works with.
    pub client: RedditClient,
    /// The OAuth host every `me` read goes to.
    pub base_url: UrlBuf,
}

impl Me {
    /// Create a new `me`; the facade copies the session by value, so a later
    /// fresh login elsewhere does not reach into it.
    pub fn new(client: &RedditClient) -> (m: Me)
        ensures
            m.client.cfg == client.cfg,
            m.base_url.base@ == "https://oauth.reddit.com/"@,
            m.base_url.query@.len() == 0,
    {
        Me { client: client.duplicate(), base_url: UrlBuf::new("https://oauth.reddit.com/") }
    }

    /// The GET request of the `me` endpoint.
    pub fn me_request(&self) -> (r: HttpRequest)
        ensures
            is_session_get(
                r,
                self.client.cfg,
                spec_join(spec_strip_slash(self.base_url.base@), seq!["api"@, "v1"@, "me"@]),
                pairs_view(self.base_url.query@),
            ),
    {
        let segs: [&str; 3] = ["api", "v1", "me"];
        let url = self.base_url.join_segments(&segs);
        proof {
            assert(strs_view(segs@) =~= seq!["api"@, "v1"@, "me"@]);
        }
        self.client.get(&url)
    }

    /// The GET request of the inbox listing.
    pub fn inbox_request(&self) -> (r: HttpRequest)
        ensures
            is_session_get(
                r,
                self.client.cfg,
                spec_join(spec_strip_slash(self.base_url.base@), seq!["message"@, "inbox"@]),
                pairs_view(self.base_url.query@),
            ),
    {
        let segs: [&str; 2] = ["message", "inbox"];
        let url = self.base_url.join_segments(&segs);
        proof {
            assert(strs_view(segs@) =~= seq!["message"@, "inbox"@]);
        }
        self.client.get(&url)
    }

    /// The GET request of the unread-messages listing.
    pub fn unread_request(&self) -> (r: HttpRequest)
        ensures
            is_session_get(
                r,
                self.client.cfg,
                spec_join(spec_strip_slash(self.base_url.base@), seq!["message"@, "unread"@]),
                pairs_view(self.base_url.query@),
            ),
    {
        let segs: [&str; 2] = ["message", "unread"];
        let url = self.base_url.join_segments(&segs);
        proof {
            assert(strs_view(segs@) =~= seq!["message"@, "unread"@]);
        }
        self.client.get(&url)
    }

    /// The GET request of one of the per-user listings (`saved`, `upvoted`,
    /// `downvoted`): a user-context operation, so a session without a
    /// username is `MissingCredentials` before anything is built.
    fn user_listing_request(&self, which: &str, options: &Option<FeedOption>) -> (r: Result<
        HttpRequest,
        RouxError,
    >)
        ensures
            r is Ok <==> self.client.cfg.username is Some,
            r is Err ==> r == Err::<HttpRequest, RouxError>(RouxError::MissingCredentials),
            r is Ok ==> is_session_get(
                r->Ok_0,
                self.client.cfg,
                spec_join(
                    spec_strip_slash(self.base_url.base@),
                    seq!["user"@, self.client.cfg.username->Some_0@, which@, ".json"@],
                ),
                pairs_view(self.base_url.query@) + spec_opt_params(*options),
            ),
    {
        match &self.client.cfg.username {
            Some(username) => {
                let segs: [&str; 4] = ["user", username.as_str(), which, ".json"];
                let mut url = self.base_url.join_segments(&segs);
                proof {
                    assert(strs_view(segs@) =~= seq![
                        "user"@,
                        self.client.cfg.username->Some_0@,
                        which@,
                        ".json"@,
                    ]);
                }
                if let Some(options) = options {
                    options.build_url(&mut url);
                }
                Ok(self.client.get(&url))
            },
            None => Err(RouxError::MissingCredentials),
        }
    }

    /// The GET request of the saved listing.
    pub fn saved_request(&self, options: Option<FeedOption>) -> (r: Result<HttpRequest, RouxError>)
        ensures
            r is Ok <==> self.client.cfg.username is Some,
            r is Err ==> r == Err::<HttpRequest, RouxError>(RouxError::MissingCredentials),
            r is Ok ==> is_session_get(
                r->Ok_0,
                self.client.cfg,
                spec_join(
                    spec_strip_slash(self.base_url.base@),
                    seq!["user"@, self.client.cfg.username->Some_0@, "saved"@, ".json"@],
                ),
                pairs_view(self.base_url.query@) + spec_opt_params(options),
            ),
    {
        self.user_listing_request("saved", &options)
    }

    /// The GET request of the upvoted listing.
    pub fn upvoted_request(&self, options: Option<FeedOption>) -> (r: Result<
        HttpRequest,
        RouxError,
    >)
        ensures
            r is Ok <==> self.client.cfg.username is Some,
            r is Err ==> r == Err::<HttpRequest, RouxError>(RouxError::MissingCredentials),
            r is Ok ==> is_session_get(
                r->Ok_0,
                self.client.cfg,
                spec_join(
                    spec_strip_slash(self.base_url.base@),
                    seq!["user"@, self.client.cfg.username->Some_0@, "upvoted"@, ".json"@],
                ),
                pairs_view(self.base_url.query@) + spec_opt_params(options),
            ),
    {
        self.user_listing_request("upvoted", &options)
    }

    /// The GET request of the downvoted listing.
    pub fn downvoted_request(&self, options: Option<FeedOption>) -> (r: Result<
        HttpRequest,
        RouxError,
    >)
        ensures
            r is Ok <==> self.client.cfg.username is Some,
            r is Err ==> r == Err::<HttpRequest, RouxError>(RouxError::MissingCredentials),
            r is Ok ==> is_session_get(
                r->Ok_0,
                self.client.cfg,
                spec_join(
                    spec_strip_slash(self.base_url.base@),
                    seq!["user"@, self.client.cfg.username->Some_0@, "downvoted"@, ".json"@],
                ),
                pairs_view(self.base_url.query@) + spec_opt_params(options),
            ),
    {
        self.user_listing_request("downvoted", &options)
    }

    /// The POST request of an operation under the OAuth host: the form as
    /// given, the path wrapped by the OAuth URL builder.
    pub fn post_request(&self, dest: &str, form: Vec<(String, String)>) -> (r: HttpRequest)
        ensures
            is_session_post(
                r,
                self.client.cfg,
                "https://oauth.reddit.com/"@ + dest@ + "/.json"@,
                pairs_view(form@),
            ),
    {
        let oauth = build_oauth(dest);
        let url = UrlBuf::new(oauth.as_str());
        assert(url.query_view() =~= Seq::<(Seq<char>, Seq<char>)>::empty());
        self.client.post(&url, form)
    }

    /// Submit link: the exact form of a link submission.
    pub fn submit_link_request(&self, title: &str, link: &str, sr: &str) -> (r: HttpRequest)
        ensures
            is_session_post(
                r,
                self.client.cfg,
                "https://oauth.reddit.com/"@ + "api/submit"@ + "/.json"@,
                seq![("kind"@, "link"@), ("title"@, title@), ("url"@, link@), ("sr"@, sr@)],
            ),
    {
        let mut form: Vec<(String, String)> = Vec::new();
        form.push(("kind".to_owned(), "link".to_owned()));
        form.push(("title".to_owned(), title.to_owned()));
        form.push(("url".to_owned(), link.to_owned()));
        form.push(("sr".to_owned(), sr.to_owned()));
        assert(pairs_view(form@) =~= seq![
            ("kind"@, "link"@),
            ("title"@, title@),
            ("url"@, link@),
            ("sr"@, sr@),
        ]);
        self.post_request("api/submit", form)
    }

    /// Submit text: the exact form of a self-post submission.
    pub fn submit_text_request(&self, title: &str, text: &str, sr: &str) -> (r: HttpRequest)
        ensures
            is_session_post(
                r,
                self.client.cfg,
                "https://oauth.reddit.com/"@ + "api/submit"@ + "/.json"@,
                seq![("kind"@, "self"@), ("title"@, title@), ("text"@, text@), ("sr"@, sr@)],
            ),
    {
        let mut form: Vec<(String, String)> = Vec::new();
        form.push(("kind".to_owned(), "self".to_owned()));
        form.push(("title".to_owned(), title.to_owned()));
        form.push(("text".to_owned(), text.to_owned()));
        form.push(("sr".to_owned(), sr.to_owned()));
        assert(pairs_view(form@) =~= seq![
            ("kind"@, "self"@),
            ("title"@, title@),
            ("text"@, text@),
            ("sr"@, sr@),
        ]);
        self.post_request("api/submit", form)
    }

    /// Submit richtext: the exact form of a rich-text submission.
    pub fn submit_richtext_request(&self, title: &str, richtext: &str, sr: &str) -> (r:
        HttpRequest)
        ensures
            is_session_post(
                r,
                self.client.cfg,
                "https://oauth.reddit.com/"@ + "api/submit"@ + "/.json"@,
                seq![
                    ("kind"@, "self"@),
                    ("title"@, title@),
                    ("richtext_json"@, richtext@),
                    ("sr"@, sr@),
                ],
            ),
    {
        let mut form: Vec<(String, String)> = Vec::new();
        form.push(("kind".to_owned(), "self".to_owned()));
        form.push(("title".to_owned(), title.to_owned()));
        form.push(("richtext_json".to_owned(), richtext.to_owned()));
        form.push(("sr".to_owned(), sr.to_owned()));
        assert(pairs_view(form@) =~= seq![
            ("kind"@, "self"@),
            ("title"@, title@),
            ("richtext_json"@, richtext@),
            ("sr"@, sr@),
        ]);
        self.post_request("api/submit", form)
    }

    /// The POST request of a friend action scoped to one subreddit.
    pub fn add_subreddit_friend_request(&self, username: &str, typ: &str, sub: &str) -> (r:
        HttpRequest)
        ensures
            is_session_post(
                r,
                self.client.cfg,
                "https://oauth.reddit.com/"@ + ("r/"@ + sub@ + "/api/friend"@) + "/.json"@,
                seq![("name"@, username@), ("type"@, typ@)],
            ),
    {
        let mut dest = "r/".to_owned();
        dest.append(sub);
        dest.append("/api/friend");
        let mut form: Vec<(String, String)> = Vec::new();
        form.push(("name".to_owned(), username.to_owned()));
        form.push(("type".to_owned(), typ.to_owned()));
        assert(pairs_view(form@) =~= seq![("name"@, username@), ("type"@, typ@)]);
        self.post_request(dest.as_str(), form)
    }

    /// The POST request of the reverse friend action.
    pub fn remove_subreddit_friend_request(&self, username: &str, typ: &str, sub: &str) -> (r:
        HttpRequest)
        ensures
            is_session_post(
                r,
                self.client.cfg,
                "https://oauth.reddit.com/"@ + ("r/"@ + sub@ + "/api/unfriend"@) + "/.json"@,
                seq![("name"@, username@), ("type"@, typ@)],
            ),
    {
        let mut dest = "r/".to_owned();
        dest.append(sub);
        dest.append("/api/unfriend");
        let mut form: Vec<(String, String)> = Vec::new();
        form.push(("name".to_owned(), username.to_owned()));
        form.push(("type".to_owned(), typ.to_owned()));
        assert(pairs_view(form@) =~= seq![("name"@, username@), ("type"@, typ@)]);
        self.post_request(dest.as_str(), form)
    }

    /// Reads a friend-action response: its `success` field, or a decode
    /// failure when the body does not carry one.
    pub fn friend_finish(body: &str) -> (r: Result<bool, ParseError>)
        ensures
            match json_bool_field(body@, "success"@) {
                Some(b) => r == Ok::<bool, ParseError>(b),
                None => r == Err::<bool, ParseError>(ParseError::Decode),
            },
    {
        match get_bool_field(body, "success") {
            Some(b) => Ok(b),
            None => Err(ParseError::Decode),
        }
    }

    /// Compose message: the exact form of a private message.
    pub fn compose_message_request(&self, username: &str, subject: &str, body: &str) -> (r:
        HttpRequest)
        ensures
            is_session_post(
                r,
                self.client.cfg,
                "https://oauth.reddit.com/"@ + "api/compose"@ + "/.json"@,
                seq![
                    ("api_type"@, "json"@),
                    ("subject"@, subject@),
                    ("text"@, body@),
                    ("to"@, username@),
                ],
            ),
    {
        let mut form: Vec<(String, String)> = Vec::new();
        form.push(("api_type".to_owned(), "json".to_owned()));
        form.push(("subject".to_owned(), subject.to_owned()));
        form.push(("text".to_owned(), body.to_owned()));
        form.push(("to".to_owned(), username.to_owned()));
        assert(pairs_view(form@) =~= seq![
            ("api_type"@, "json"@),
            ("subject"@, subject@),
            ("text"@, body@),
            ("to"@, username@),
        ]);
        self.post_request("api/compose", form)
    }

    /// Mark messages as read.
    pub fn mark_read_request(&self, ids: &str) -> (r: HttpRequest)
        ensures
            is_session_post(
                r,
                self.client.cfg,
                "https://oauth.reddit.com/"@ + "api/read_message"@ + "/.json"@,
                seq![("id"@, ids@)],
            ),
    {
        let mut form: Vec<(String, String)> = Vec::new();
        form.push(("id".to_owned(), ids.to_owned()));
        assert(pairs_view(form@) =~= seq![("id"@, ids@)]);
        self.post_request("api/read_message", form)
    }

    /// Mark messages as unread.
    pub fn mark_unread_request(&self, ids: &str) -> (r: HttpRequest)
        ensures
            is_session_post(
                r,
                self.client.cfg,
                "https://oauth.reddit.com/"@ + "api/unread_message"@ + "/.json"@,
                seq![("id"@, ids@)],
            ),
    {
        let mut form: Vec<(String, String)> = Vec::new();
        form.push(("id".to_owned(), ids.to_owned()));
        assert(pairs_view(form@) =~= seq![("id"@, ids@)]);
        self.post_request("api/unread_message", form)
    }

    /// Comment on a thing.
    pub fn comment_request(&self, text: &str, parent: &str) -> (r: HttpRequest)
        ensures
            is_session_post(
                r,
                self.client.cfg,
                "https://oauth.reddit.com/"@ + "api/comment"@ + "/.json"@,
                seq![("text"@, text@), ("parent"@, parent@)],
            ),
    {
        let mut form: Vec<(String, String)> = Vec::new();
        form.push(("text".to_owned(), text.to_owned()));
        form.push(("parent".to_owned(), parent.to_owned()));
        assert(pairs_view(form@) =~= seq![("text"@, text@), ("parent"@, parent@)]);
        self.post_request("api/comment", form)
    }

    /// Edit a 'thing'.
    pub fn edit_request(&self, text: &str, parent: &str) -> (r: HttpRequest)
        ensures
            is_session_post(
                r,
                self.client.cfg,
                "https://oauth.reddit.com/"@ + "api/editusertext"@ + "/.json"@,
                seq![("text"@, text@), ("thing_id"@, parent@)],
            ),
    {
        let mut form: Vec<(String, String)> = Vec::new();
        form.push(("text".to_owned(), text.to_owned()));
        form.push(("thing_id".to_owned(), parent.to_owned()));
        assert(pairs_view(form@) =~= seq![("text"@, text@), ("thing_id"@, parent@)]);
        self.post_request("api/editusertext", form)
    }

    /// The token-revocation request: basic credentials carry the application
    /// identity, the form carries the token. A session that never logged in
    /// has nothing to revoke: `MissingCredentials`, before anything is built.
    pub fn logout_request(&self) -> (r: Result<HttpRequest, RouxError>)
        ensures
            r is Ok <==> self.client.cfg.access_token is Some,
            r is Err ==> r == Err::<HttpRequest, RouxError>(RouxError::MissingCredentials),
            r is Ok ==> {
                let q = r->Ok_0;
                &&& q.method is Post
                &&& q.url.base@ == "https://www.reddit.com/api/v1/revoke_token"@
                &&& q.url.query_view().len() == 0
                &&& q.user_agent@ == self.client.cfg.user_agent@
                &&& q.bearer == self.client.cfg.access_token
                &&& crate::request::opt_pair_view(q.basic) == Some(
                    (self.client.cfg.client_id@, self.client.cfg.client_secret@),
                )
                &&& pairs_view(q.form@) == seq![
                    ("access_token"@, self.client.cfg.access_token->Some_0@),
                ]
            },
    {
        match &self.client.cfg.access_token {
            Some(token) => {
                let mut form: Vec<(String, String)> = Vec::new();
                form.push(("access_token".to_owned(), token.clone()));
                assert(pairs_view(form@) =~= seq![
                    ("access_token"@, self.client.cfg.access_token->Some_0@),
                ]);
                Ok(HttpRequest {
                    method: HttpMethod::Post,
                    url: UrlBuf::new("https://www.reddit.com/api/v1/revoke_token"),
                    user_agent: self.client.cfg.user_agent.clone(),
                    bearer: clone_opt_string(&self.client.cfg.access_token),
                    basic: Some(
                        (self.client.cfg.client_id.clone(), self.client.cfg.client_secret.clone()),
                    ),
                    form,
                })
            },
            None => Err(RouxError::MissingCredentials),
        }
    }

    /// Interprets the revocation response: success is HTTP 204 specifically;
    /// any other status is a `Status` failure.
    pub fn logout_finish(status: u16, body: String) -> (r: Result<(), RouxError>)
        ensures
            status == 204 ==> r == Ok::<(), RouxError>(()),
            status != 204 ==> r == Err::<(), RouxError>(RouxError::Status(status, body)),
    {
        if status == 204 {
            Ok(())
        } else {
            Err(RouxError::Status(status, body))
        }
    }
}

} // verus!
