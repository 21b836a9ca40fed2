//! The request model: a URL under construction, the outgoing request value
//! that the dispatcher builds, and the classification of raw responses.

use vstd::prelude::*;
use vstd::string::StrSliceExecFns;
use vstd::string::StringExecFns;

use crate::config::Config;
use crate::util::error::RouxError;

verus! {

/// A list of (key, value) string pairs, seen as character sequences.
pub open spec fn pairs_view(v: Seq<(String, String)>) -> Seq<(Seq<char>, Seq<char>)> {
    v.map_values(|p: (String, String)| (p.0@, p.1@))
}

/// Copies a list of (key, value) pairs.
pub fn clone_pairs(v: &Vec<(String, String)>) -> (r: Vec<(String, String)>)
    ensures
        r@ == v@,
{
    let mut r: Vec<(String, String)> = Vec::new();
    let mut i: usize = 0;
    while i < v.len()
        invariant
            i <= v.len(),
            r@ == v@.take(i as int),
        decreases v.len() - i,
    {
        let p = &v[i];
        r.push((p.0.clone(), p.1.clone()));
        assert(r@ =~= v@.take(i + 1));
        i += 1;
    }
    assert(r@ =~= v@);
    r
}

/// A URL under construction: a base (scheme, host and path) and the query
/// pairs appended after it. Building a query never touches the base.
pub struct UrlBuf {
    /// Scheme, host and path.
    pub base: String,
    /// The query pairs, in the order they will stand on the wire.
    pub query: Vec<(String, String)>,
}

/// The query string `k1=v1&k2=v2&...` for the given pairs.
pub open spec fn spec_query_string(q: Seq<(Seq<char>, Seq<char>)>) -> Seq<char>
    decreases q.len(),
{
    if q.len() == 0 {
        Seq::empty()
    } else if q.len() == 1 {
        q[0].0 + "="@ + q[0].1
    } else {
        spec_query_string(q.drop_last()) + "&"@ + q.last().0 + "="@ + q.last().1
    }
}

/// The full rendering of a built URL: the base, then `?` and the query string
/// when any pair is present.
pub open spec fn spec_url_string(base: Seq<char>, q: Seq<(Seq<char>, Seq<char>)>) -> Seq<char> {
    if q.len() == 0 {
        base
    } else {
        base + "?"@ + spec_query_string(q)
    }
}

impl UrlBuf {
    /// The query pairs as character sequences.
    pub open spec fn query_view(&self) -> Seq<(Seq<char>, Seq<char>)> {
        pairs_view(self.query@)
    }

    /// A URL with the given base and no query.
    pub fn new(base: &str) -> (u: UrlBuf)
        ensures
            u.base@ == base@,
            u.query@.len() == 0,
    {
        UrlBuf { base: base.to_owned(), query: Vec::new() }
    }

    /// Appends one query pair; the base is left alone.
    pub fn append_pair(&mut self, key: &str, value: &str)
        ensures
            final(self).base@ == old(self).base@,
            final(self).query_view() == old(self).query_view().push((key@, value@)),
    {
        self.query.push((key.to_owned(), value.to_owned()));
        assert(self.query_view() =~= old(self).query_view().push((key@, value@)));
    }

    /// Appends every pair of `pairs` to the query, in order; the base is left
    /// alone.
    pub fn append_pairs(&mut self, pairs: &Vec<(String, String)>)
        ensures
            final(self).base@ == old(self).base@,
            final(self).query_view() == old(self).query_view() + pairs_view(pairs@),
    {
        let mut i: usize = 0;
        while i < pairs.len()
            invariant
                i <= pairs@.len(),
                self.base@ == old(self).base@,
                self.query_view() == old(self).query_view() + pairs_view(pairs@.take(i as int)),
            decreases pairs@.len() - i,
        {
            let p = &pairs[i];
            self.append_pair(p.0.as_str(), p.1.as_str());
            proof {
                assert(pairs_view(pairs@.take(i + 1)) =~= pairs_view(pairs@.take(i as int)).push(
                    (p.0@, p.1@),
                ));
                assert(self.query_view() =~= old(self).query_view() + pairs_view(
                    pairs@.take(i + 1),
                ));
            }
            i += 1;
        }
        assert(pairs_view(pairs@.take(pairs@.len() as int)) =~= pairs_view(pairs@));
    }

    /// A copy of this URL.
    pub fn duplicate(&self) -> (r: UrlBuf)
        ensures
            r.base@ == self.base@,
            r.query@ == self.query@,
    {
        UrlBuf { base: self.base.clone(), query: clone_pairs(&self.query) }
    }

    /// Renders the URL as one string: the base, then `?k1=v1&k2=v2...` when
    /// any query pair is present. Keys and values are rendered as given.
    pub fn to_url_string(&self) -> (s: String)
        ensures
            s@ == spec_url_string(self.base@, self.query_view()),
    {
        let ghost qv = self.query_view();
        let mut s = self.base.clone();
        if self.query.len() == 0 {
            return s;
        }
        s.append("?");
        let mut i: usize = 0;
        while i < self.query.len()
            invariant
                0 < self.query@.len(),
                i <= self.query@.len(),
                qv == self.query_view(),
                qv.len() == self.query@.len(),
                i == 0 ==> s@ == self.base@ + "?"@,
                i > 0 ==> s@ == self.base@ + "?"@ + spec_query_string(qv.take(i as int)),
            decreases self.query@.len() - i,
        {
            if i > 0 {
                s.append("&");
            }
            let p = &self.query[i];
            s.append(p.0.as_str());
            s.append("=");
            s.append(p.1.as_str());
            proof {
                assert(qv.take(i + 1).drop_last() =~= qv.take(i as int));
                assert(qv.take(i + 1).last() == qv[i as int]);
                assert(qv[i as int] == (p.0@, p.1@));
                if i == 0 {
                    assert(spec_query_string(qv.take(1)) =~= qv[0].0 + "="@ + qv[0].1);
                    assert(s@ =~= self.base@ + "?"@ + spec_query_string(qv.take(1)));
                } else {
                    assert(s@ =~= self.base@ + "?"@ + spec_query_string(qv.take(i + 1)));
                }
            }
            i += 1;
        }
        assert(qv.take(qv.len() as int) =~= qv);
        s
    }
}

/// An optional (key, value) string pair, seen as character sequences.
pub open spec fn opt_pair_view(o: Option<(String, String)>) -> Option<(Seq<char>, Seq<char>)> {
    match o {
        Some(p) => Some((p.0@, p.1@)),
        None => None,
    }
}

/// The HTTP method of an outgoing request.
#[derive(Clone, Copy, Debug, PartialEq, Eq, Structural)]
pub enum HttpMethod {
    /// A read.
    Get,
    /// A write, carrying a form body.
    Post,
}

/// An outgoing request, built by the dispatcher as a plain value. The
/// user-agent header is a mandatory field: a request without one cannot be
/// constructed, which is the construction-time guarantee the session needs.
pub struct HttpRequest {
    /// GET or POST.
    pub method: HttpMethod,
    /// Where the request goes, query pairs included.
    pub url: UrlBuf,
    /// The user-agent header, always present.
    pub user_agent: String,
    /// The bearer token attached as authorization, when the session has one.
    pub bearer: Option<String>,
    /// Transport-level basic credentials (client id and secret), for the
    /// token grant and revocation endpoints.
    pub basic: Option<(String, String)>,
    /// The URL-encoded form body of a POST; empty for a GET.
    pub form: Vec<(String, String)>,
}

/// The exact GET request a session in state `cfg` builds for base URL `base`
/// and caller query `q`: user agent always attached, the bearer token
/// attached exactly when the session holds one, and `raw_json=1` put before
/// every caller-supplied query pair.
pub open spec fn is_session_get(
    r: HttpRequest,
    cfg: Config,
    base: Seq<char>,
    q: Seq<(Seq<char>, Seq<char>)>,
) -> bool {
    &&& r.method is Get
    &&& r.user_agent@ == cfg.user_agent@
    &&& r.bearer == cfg.access_token
    &&& r.basic is None
    &&& r.form@.len() == 0
    &&& r.url.base@ == base
    &&& r.url.query_view() == seq![("raw_json"@, "1"@)] + q
}

/// The exact POST request a session in state `cfg` builds for base URL
/// `base` and form body `form`: user agent always attached, the bearer token
/// attached exactly when the session holds one, no query of its own.
pub open spec fn is_session_post(
    r: HttpRequest,
    cfg: Config,
    base: Seq<char>,
    form: Seq<(Seq<char>, Seq<char>)>,
) -> bool {
    &&& r.method is Post
    &&& r.user_agent@ == cfg.user_agent@
    &&& r.bearer == cfg.access_token
    &&& r.basic is None
    &&& r.url.base@ == base
    &&& r.url.query_view().len() == 0
    &&& pairs_view(r.form@) == form
}

/// Accepts a response unless its status is a client or server error (4xx or
/// 5xx), which is surfaced as `Status` carrying the status and the raw body.
/// Nothing is retried.
pub fn classify_response(status: u16, body: String) -> (r: Result<String, RouxError>)
    ensures
        400 <= status < 600 ==> r == Err::<String, RouxError>(RouxError::Status(status, body)),
        !(400 <= status < 600) ==> r == Ok::<String, RouxError>(body),
{
    if 400 <= status && status < 600 {
        Err(RouxError::Status(status, body))
    } else {
        Ok(body)
    }
}

} // verus!
