//! The subreddit facades: searching subreddits, reading a subreddit's data
//! and moderators, its ranked post feeds, and its comment listings — each as
//! the exact request it sends, with the comment endpoints also naming which
//! wire shape their response will use.

use vstd::prelude::*;
use vstd::string::StringExecFns;

use crate::comments::EndpointKind;
use crate::request::is_session_get;
use crate::request::pairs_view;
use crate::request::HttpRequest;
use crate::request::UrlBuf;
use crate::util::cursor::spec_opt_param;
use crate::util::cursor::spec_opt_params;
use crate::util::cursor::FeedOption;
use crate::util::defaults::default_client;
use crate::util::text::spec_contains;
use crate::util::text::spec_contains_at;
use crate::util::text::spec_u32_string;
use crate::util::text::u32_to_string;
use crate::util::url::spec_join;
use crate::util::url::spec_strip_slash;
use crate::util::url::strs_view;
use crate::RedditClient;

verus! {

/// The query pair of an optional numeric parameter, rendered in decimal.
pub open spec fn spec_opt_u32_param(key: Seq<char>, value: Option<u32>) -> Seq<
    (Seq<char>, Seq<char>),
> {
    spec_opt_param(
        key,
        match value {
            Some(n) => Some(spec_u32_string(n as nat)),
            None => None,
        },
    )
}

/// Access subreddits API.
pub struct Subreddits;

impl Subreddits {
    /// The GET request of a subreddit search: the query term, then the
    /// optional limit, then the cursor parameters.
    pub fn search_request(
        client: &RedditClient,
        name: &str,
        limit: Option<u32>,
        options: Option<FeedOption>,
    ) -> (r: HttpRequest)
        ensures
            is_session_get(
                r,
                client.cfg,
                "https://www.reddit.com/subreddits/search.json"@,
                seq![("q"@, name@)] + spec_opt_u32_param("limit"@, limit) + spec_opt_params(
                    options,
                ),
            ),
    {
        let mut url = UrlBuf::new("https://www.reddit.com/subreddits/search.json");
        url.append_pair("q", name);
        if let Some(l) = limit {
            let s = u32_to_string(l);
            url.append_pair("limit", s.as_str());
        }
        if let Some(o) = &options {
            o.build_url(&mut url);
        }
        assert(url.query_view() =~= seq![("q"@, name@)] + spec_opt_u32_param("limit"@, limit)
            + spec_opt_params(options));
        client.get(&url)
    }
}

/// Subreddit: read access to one subreddit's data, feeds and comments.
pub struct Subreddit {
    /// Name of subreddit.
    pub name: String,
    /// The subreddit's base URL; the dispatcher itself guarantees
    /// `raw_json=1` on every read, so no query is baked in here.
    pub url: UrlBuf,
    /// The session the facade reads with.
    pub client: RedditClient,
}

impl Subreddit {
    /// Create a new `Subreddit` instance over the anonymous default session.
    pub fn new(name: &str) -> (s: Subreddit)
        ensures
            s.name@ == name@,
            s.url.base@ == "https://www.reddit.com/r/"@ + name@ + "/"@,
            s.url.query@.len() == 0,
            s.client.cfg.user_agent@ == "roux/rust"@,
            s.client.cfg.access_token is None,
    {
        let mut base = "https://www.reddit.com/r/".to_owned();
        base.append(name);
        base.append("/");
        Subreddit {
            name: name.to_owned(),
            url: UrlBuf { base, query: Vec::new() },
            client: default_client(),
        }
    }

    /// Create a new authenticated `Subreddit` instance over a copy of the
    /// given session.
    pub fn new_oauth(name: &str, client: &RedditClient) -> (s: Subreddit)
        ensures
            s.name@ == name@,
            s.url.base@ == "https://www.reddit.com/r/"@ + name@ + "/"@,
            s.url.query@.len() == 0,
            s.client.cfg == client.cfg,
    {
        let mut base = "https://www.reddit.com/r/".to_owned();
        base.append(name);
        base.append("/");
        Subreddit {
            name: name.to_owned(),
            url: UrlBuf { base, query: Vec::new() },
            client: client.duplicate(),
        }
    }

    /// The GET request of the moderator listing.
    pub fn moderators_request(&self) -> (r: HttpRequest)
        ensures
            is_session_get(
                r,
                self.client.cfg,
                spec_join(
                    spec_strip_slash(self.url.base@),
                    seq!["about"@, "moderators"@, ".json"@],
                ),
                pairs_view(self.url.query@),
            ),
    {
        let segs: [&str; 3] = ["about", "moderators", ".json"];
        let url = self.url.join_segments(&segs);
        proof {
            assert(strs_view(segs@) =~= seq!["about"@, "moderators"@, ".json"@]);
        }
        self.client.get(&url)
    }

    /// The GET request of the subreddit's own data.
    pub fn about_request(&self) -> (r: HttpRequest)
        ensures
            is_session_get(
                r,
                self.client.cfg,
                spec_join(spec_strip_slash(self.url.base@), seq!["about"@, ".json"@]),
                pairs_view(self.url.query@),
            ),
    {
        let segs: [&str; 2] = ["about", ".json"];
        let url = self.url.join_segments(&segs);
        proof {
            assert(strs_view(segs@) =~= seq!["about"@, ".json"@]);
        }
        self.client.get(&url)
    }

    /// The GET request of one ranked post feed: the mandatory limit, then the
    /// cursor parameters.
    pub fn feed_request(&self, ty: &str, limit: u32, options: Option<FeedOption>) -> (r:
        HttpRequest)
        ensures
            is_session_get(
                r,
                self.client.cfg,
                self.url.base@ + ty@ + ".json"@,
                pairs_view(self.url.query@) + seq![("limit"@, spec_u32_string(limit as nat))]
                    + spec_opt_params(options),
            ),
    {
        let mut base = self.url.base.clone();
        base.append(ty);
        base.append(".json");
        let mut url = UrlBuf { base, query: crate::request::clone_pairs(&self.url.query) };
        let s = u32_to_string(limit);
        url.append_pair("limit", s.as_str());
        if let Some(o) = &options {
            o.build_url(&mut url);
        }
        assert(url.query_view() =~= pairs_view(self.url.query@) + seq![
            ("limit"@, spec_u32_string(limit as nat)),
        ] + spec_opt_params(options));
        self.client.get(&url)
    }

    /// Get hot posts, as the request to send.
    pub fn hot_request(&self, limit: u32, options: Option<FeedOption>) -> (r: HttpRequest)
        ensures
            is_session_get(
                r,
                self.client.cfg,
                self.url.base@ + "hot"@ + ".json"@,
                pairs_view(self.url.query@) + seq![("limit"@, spec_u32_string(limit as nat))]
                    + spec_opt_params(options),
            ),
    {
        self.feed_request("hot", limit, options)
    }

    /// Get rising posts, as the request to send.
    pub fn rising_request(&self, limit: u32, options: Option<FeedOption>) -> (r: HttpRequest)
        ensures
            is_session_get(
                r,
                self.client.cfg,
                self.url.base@ + "rising"@ + ".json"@,
                pairs_view(self.url.query@) + seq![("limit"@, spec_u32_string(limit as nat))]
                    + spec_opt_params(options),
            ),
    {
        self.feed_request("rising", limit, options)
    }

    /// Get top posts, as the request to send.
    pub fn top_request(&self, limit: u32, options: Option<FeedOption>) -> (r: HttpRequest)
        ensures
            is_session_get(
                r,
                self.client.cfg,
                self.url.base@ + "top"@ + ".json"@,
                pairs_view(self.url.query@) + seq![("limit"@, spec_u32_string(limit as nat))]
                    + spec_opt_params(options),
            ),
    {
        self.feed_request("top", limit, options)
    }

    /// Get latest posts, as the request to send.
    pub fn latest_request(&self, limit: u32, options: Option<FeedOption>) -> (r: HttpRequest)
        ensures
            is_session_get(
                r,
                self.client.cfg,
                self.url.base@ + "new"@ + ".json"@,
                pairs_view(self.url.query@) + seq![("limit"@, spec_u32_string(limit as nat))]
                    + spec_opt_params(options),
            ),
    {
        self.feed_request("new", limit, options)
    }

    /// The GET request of one comment listing, and which wire shape its
    /// response will use — read off the request path, as the normalizer
    /// demands: a path with a post identifier segment is post-scoped.
    pub fn comment_feed_request(&self, ty: &str, depth: Option<u32>, limit: Option<u32>) -> (r: (
        HttpRequest,
        EndpointKind,
    ))
        ensures
            is_session_get(
                r.0,
                self.client.cfg,
                self.url.base@ + ty@ + ".json"@,
                pairs_view(self.url.query@) + spec_opt_u32_param("depth"@, depth)
                    + spec_opt_u32_param("limit"@, limit),
            ),
            r.1 == (if spec_contains(self.url.base@ + ty@ + ".json"@, "comments/"@) {
                EndpointKind::PostScoped
            } else {
                EndpointKind::ForumScoped
            }),
    {
        let mut base = self.url.base.clone();
        base.append(ty);
        base.append(".json");
        let kind = EndpointKind::of_path(base.as_str());
        let mut url = UrlBuf { base, query: crate::request::clone_pairs(&self.url.query) };
        if let Some(d) = depth {
            let s = u32_to_string(d);
            url.append_pair("depth", s.as_str());
        }
        if let Some(l) = limit {
            let s = u32_to_string(l);
            url.append_pair("limit", s.as_str());
        }
        assert(url.query_view() =~= pairs_view(self.url.query@) + spec_opt_u32_param(
            "depth"@,
            depth,
        ) + spec_opt_u32_param("limit"@, limit));
        (self.client.get(&url), kind)
    }

    /// Get latest comments, as the request to send and the wire shape of its
    /// response.
    pub fn latest_comments_request(&self, depth: Option<u32>, limit: Option<u32>) -> (r: (
        HttpRequest,
        EndpointKind,
    ))
        ensures
            is_session_get(
                r.0,
                self.client.cfg,
                self.url.base@ + "comments"@ + ".json"@,
                pairs_view(self.url.query@) + spec_opt_u32_param("depth"@, depth)
                    + spec_opt_u32_param("limit"@, limit),
            ),
            r.1 == (if spec_contains(self.url.base@ + "comments"@ + ".json"@, "comments/"@) {
                EndpointKind::PostScoped
            } else {
                EndpointKind::ForumScoped
            }),
    {
        self.comment_feed_request("comments", depth, limit)
    }

    /// Get comments from an article, as the request to send; its response is
    /// always post-scoped, since the path carries the post identifier.
    pub fn article_comments_request(&self, article: &str, depth: Option<u32>, limit: Option<
        u32,
    >) -> (r: (HttpRequest, EndpointKind))
        ensures
            is_session_get(
                r.0,
                self.client.cfg,
                self.url.base@ + ("comments/"@ + article@) + ".json"@,
                pairs_view(self.url.query@) + spec_opt_u32_param("depth"@, depth)
                    + spec_opt_u32_param("limit"@, limit),
            ),
            r.1 == EndpointKind::PostScoped,
    {
        let mut ty = "comments/".to_owned();
        ty.append(article);
        let r = self.comment_feed_request(ty.as_str(), depth, limit);
        proof {
            reveal_strlit("comments/");
            let full = self.url.base@ + ("comments/"@ + article@) + ".json"@;
            let at = self.url.base@.len() as int;
            assert(full.subrange(at, at + 9) =~= "comments/"@);
            assert(spec_contains_at(full, "comments/"@, at));
        }
        r
    }
}

} // verus!
