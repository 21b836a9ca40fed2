//! The user facade: read access to another account's overview, submissions,
//! comments and about page, each as the exact request it sends.

use vstd::prelude::*;

use crate::request::is_session_get;
use crate::request::pairs_view;
use crate::request::HttpRequest;
use crate::request::UrlBuf;
use crate::util::cursor::spec_opt_params;
use crate::util::cursor::FeedOption;
use crate::util::defaults::default_client;
use crate::util::url::spec_join;
use crate::util::url::spec_strip_slash;
use crate::util::url::strs_view;
use crate::RedditClient;

verus! {

/// User: read access to one account's public listings.
pub struct User {
    /// User's name.
    pub user: String,
    /// The session the facade reads with.
    pub client: RedditClient,
    /// The host and path every user read goes under.
    pub base_url: UrlBuf,
}

impl User {
    /// Create a new `User` instance over the anonymous default session.
    pub fn new(user: &str) -> (u: User)
        ensures
            u.user@ == user@,
            u.base_url.base@ == "https://www.reddit.com/user/"@,
            u.base_url.query@.len() == 0,
            u.client.cfg.user_agent@ == "roux/rust"@,
            u.client.cfg.access_token is None,
    {
        User {
            user: user.to_owned(),
            client: default_client(),
            base_url: UrlBuf::new("https://www.reddit.com/user/"),
        }
    }

    /// The GET request of one of the account's listings (`overview`,
    /// `submitted`, `comments`, `about`).
    fn listing_request(&self, which: &str, options: &Option<FeedOption>) -> (r: HttpRequest)
        ensures
            is_session_get(
                r,
                self.client.cfg,
                spec_join(
                    spec_strip_slash(self.base_url.base@),
                    seq![self.user@, which@, ".json"@],
                ),
                pairs_view(self.base_url.query@) + spec_opt_params(*options),
            ),
    {
        let segs: [&str; 3] = [self.user.as_str(), which, ".json"];
        let mut url = self.base_url.join_segments(&segs);
        proof {
            assert(strs_view(segs@) =~= seq![self.user@, which@, ".json"@]);
        }
        if let Some(options) = options {
            options.build_url(&mut url);
        }
        self.client.get(&url)
    }

    /// Get user's overview, as the request to send.
    pub fn overview_request(&self, options: Option<FeedOption>) -> (r: HttpRequest)
        ensures
            is_session_get(
                r,
                self.client.cfg,
                spec_join(
                    spec_strip_slash(self.base_url.base@),
                    seq![self.user@, "overview"@, ".json"@],
                ),
                pairs_view(self.base_url.query@) + spec_opt_params(options),
            ),
    {
        self.listing_request("overview", &options)
    }

    /// Get user's submitted posts, as the request to send.
    pub fn submitted_request(&self, options: Option<FeedOption>) -> (r: HttpRequest)
        ensures
            is_session_get(
                r,
                self.client.cfg,
                spec_join(
                    spec_strip_slash(self.base_url.base@),
                    seq![self.user@, "submitted"@, ".json"@],
                ),
                pairs_view(self.base_url.query@) + spec_opt_params(options),
            ),
    {
        self.listing_request("submitted", &options)
    }

    /// Get user's submitted comments, as the request to send.
    pub fn comments_request(&self, options: Option<FeedOption>) -> (r: HttpRequest)
        ensures
            is_session_get(
                r,
                self.client.cfg,
                spec_join(
                    spec_strip_slash(self.base_url.base@),
                    seq![self.user@, "comments"@, ".json"@],
                ),
                pairs_view(self.base_url.query@) + spec_opt_params(options),
            ),
    {
        self.listing_request("comments", &options)
    }

    /// Get user's about page, as the request to send.
    pub fn about_request(&self, options: Option<FeedOption>) -> (r: HttpRequest)
        ensures
            is_session_get(
                r,
                self.client.cfg,
                spec_join(
                    spec_strip_slash(self.base_url.base@),
                    seq![self.user@, "about"@, ".json"@],
                ),
                pairs_view(self.base_url.query@) + spec_opt_params(options),
            ),
    {
        self.listing_request("about", &options)
    }
}

} // verus!
