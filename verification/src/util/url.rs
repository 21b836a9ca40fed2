//! URL construction: the fixed hosts for read-only and OAuth access, and
//! joining path segments onto a base URL.

use vstd::prelude::*;
use vstd::string::StrSliceExecFns;
use vstd::string::StringExecFns;

use crate::request::clone_pairs;
use crate::request::UrlBuf;

verus! {

/// Builds a url for read only Reddit access.
pub fn build_url(dest: &str) -> (r: String)
    ensures
        r@ == "https://www.reddit.com/"@ + dest@ + "/.json"@,
{
    let mut s = "https://www.reddit.com/".to_owned();
    s.append(dest);
    s.append("/.json");
    s
}

/// Builds a url for OAuth Reddit access.
pub fn build_oauth(dest: &str) -> (r: String)
    ensures
        r@ == "https://oauth.reddit.com/"@ + dest@ + "/.json"@,
{
    let mut s = "https://oauth.reddit.com/".to_owned();
    s.append(dest);
    s.append("/.json");
    s
}

/// `s` without its trailing slash, when it has one.
pub open spec fn spec_strip_slash(s: Seq<char>) -> Seq<char> {
    if s.len() > 0 && s.last() == '/' {
        s.drop_last()
    } else {
        s
    }
}

/// The segment list of a borrowed-string slice, as character sequences.
pub open spec fn strs_view(s: Seq<&str>) -> Seq<Seq<char>> {
    s.map_values(|x: &str| x@)
}

/// `base` with `/segment` appended for each segment, in order.
pub open spec fn spec_join(base: Seq<char>, segs: Seq<Seq<char>>) -> Seq<char>
    decreases segs.len(),
{
    if segs.len() == 0 {
        base
    } else {
        spec_join(base, segs.drop_last()) + "/"@ + segs.last()
    }
}

fn strip_trailing_slash(s: &str) -> (r: String)
    ensures
        r@ == spec_strip_slash(s@),
{
    let n = s.unicode_len();
    if n > 0 && s.get_char(n - 1) == '/' {
        s.substring_char(0, n - 1).to_owned()
    } else {
        s.to_owned()
    }
}

impl UrlBuf {
    /// A copy of this URL with the path segments pushed onto the base: a
    /// trailing slash is dropped first, then each segment is appended behind
    /// a slash of its own. The query is carried over unchanged.
    pub fn join_segments(&self, segments: &[&str]) -> (r: UrlBuf)
        ensures
            r.base@ == spec_join(spec_strip_slash(self.base@), strs_view(segments@)),
            r.query@ == self.query@,
    {
        let ghost sv = strs_view(segments@);
        let mut base = strip_trailing_slash(self.base.as_str());
        let mut i: usize = 0;
        while i < segments.len()
            invariant
                i <= segments@.len(),
                sv == strs_view(segments@),
                sv.len() == segments@.len(),
                base@ == spec_join(spec_strip_slash(self.base@), sv.take(i as int)),
            decreases segments@.len() - i,
        {
            base.append("/");
            base.append(segments[i]);
            proof {
                assert(sv.take(i + 1).drop_last() =~= sv.take(i as int));
                assert(sv.take(i + 1).last() == sv[i as int]);
                assert(sv[i as int] == segments@[i as int]@);
            }
            i += 1;
        }
        assert(sv.take(sv.len() as int) =~= sv);
        UrlBuf { base, query: clone_pairs(&self.query) }
    }
}

} // verus!
