//! The comment-tree normalizer. A comment listing scoped to a whole forum
//! arrives as a single JSON listing object; one scoped to a single post
//! arrives as a JSON array whose trailing element is that same listing
//! object. Both are reconciled here into one canonical shape, so every
//! consumer downstream is shape-agnostic.

use vstd::prelude::*;

use crate::json::get_array_elem;
use crate::json::get_array_len;
use crate::json::get_field;
use crate::json::get_str_field;
use crate::json::json_array_elem;
use crate::json::json_array_len;
use crate::json::json_field;
use crate::json::json_str_field;
use crate::request::classify_response;
use crate::util::error::ParseError;
use crate::util::error::RouxError;
use crate::util::text::spec_contains;
use crate::util::text::str_contains;

verus! {

/// Which of the two wire shapes a comment endpoint returns. The caller
/// decides from the request path and passes it in; the normalizer never
/// infers it from the payload, because an empty or malformed array would be
/// ambiguous.
#[derive(Clone, Copy, Debug, PartialEq, Eq, Structural)]
pub enum EndpointKind {
    /// The comment stream of a whole forum: a single listing object.
    ForumScoped,
    /// The comment tree of one post: an array of listings, the last of which
    /// is the comment listing.
    PostScoped,
}

impl EndpointKind {
    /// The kind of a comment path: a path with a post identifier segment
    /// (`comments/<id>`) is post-scoped, a bare `comments` path is
    /// forum-scoped.
    pub fn of_path(path: &str) -> (r: EndpointKind)
        ensures
            r == (if spec_contains(path@, "comments/"@) {
                EndpointKind::PostScoped
            } else {
                EndpointKind::ForumScoped
            }),
    {
        if str_contains(path, "comments/") {
            EndpointKind::PostScoped
        } else {
            EndpointKind::ForumScoped
        }
    }
}

/// One top-level comment node of a listing page: its identifier, and the
/// listing of replies nested under it as raw JSON text, normalized in turn by
/// [`CommentNode::replies`].
#[derive(Clone, Debug, PartialEq, Eq)]
pub struct CommentNode {
    /// The comment's identifier, when the node carries one.
    pub id: Option<String>,
    /// The nested reply listing, re-serialized, when the node carries one.
    pub replies_raw: Option<String>,
}

/// The canonical shape both wire forms converge on: one page of top-level
/// comment nodes and the page's own `after` cursor.
#[derive(Clone, Debug, PartialEq, Eq)]
pub struct CommentTree {
    /// The cursor for the next page of this listing, when there is one.
    pub after: Option<String>,
    /// The top-level comment nodes of this page.
    pub children: Vec<CommentNode>,
}

/// The `data` object of a listing body.
pub open spec fn spec_listing_data(s: Seq<char>) -> Option<Seq<char>> {
    json_field(s, "data"@)
}

/// The `after` cursor of a listing body.
pub open spec fn spec_listing_after(s: Seq<char>) -> Option<Seq<char>> {
    match spec_listing_data(s) {
        Some(d) => json_str_field(d, "after"@),
        None => None,
    }
}

/// The `children` array of a listing body.
pub open spec fn spec_listing_children(s: Seq<char>) -> Option<Seq<char>> {
    match spec_listing_data(s) {
        Some(d) => json_field(d, "children"@),
        None => None,
    }
}

/// How many children a listing body holds.
pub open spec fn spec_listing_len(s: Seq<char>) -> Option<int> {
    match spec_listing_children(s) {
        Some(c) => json_array_len(c),
        None => None,
    }
}

/// Child `i` of a listing body, as its own JSON text.
pub open spec fn spec_child(s: Seq<char>, i: int) -> Option<Seq<char>> {
    match spec_listing_children(s) {
        Some(c) => json_array_elem(c, i),
        None => None,
    }
}

/// The identifier of a child node's `data` object.
pub open spec fn spec_node_id(c: Seq<char>) -> Option<Seq<char>> {
    match json_field(c, "data"@) {
        Some(d) => json_str_field(d, "id"@),
        None => None,
    }
}

/// The nested reply listing of a child node's `data` object.
pub open spec fn spec_node_replies(c: Seq<char>) -> Option<Seq<char>> {
    match json_field(c, "data"@) {
        Some(d) => json_field(d, "replies"@),
        None => None,
    }
}

/// `n` is the normal form of the child JSON `c`.
pub open spec fn node_matches(n: CommentNode, c: Seq<char>) -> bool {
    &&& n.id.deep_view() == spec_node_id(c)
    &&& n.replies_raw.deep_view() == spec_node_replies(c)
}

/// The body is a well-shaped listing: a `data` object with a `children`
/// array, every element of which can be taken out.
pub open spec fn spec_listing_ok(s: Seq<char>) -> bool {
    &&& spec_listing_data(s) is Some
    &&& spec_listing_children(s) is Some
    &&& spec_listing_len(s) is Some
    &&& forall|i: int|
        0 <= i < spec_listing_len(s)->Some_0 ==> (#[trigger] spec_child(s, i)) is Some
}

/// `t` is the normal form of the listing body `s`: same cursor, one node per
/// child, each node holding its child's identifier and replies.
pub open spec fn tree_matches(t: CommentTree, s: Seq<char>) -> bool {
    &&& t.after.deep_view() == spec_listing_after(s)
    &&& spec_listing_len(s) == Some(t.children@.len() as int)
    &&& forall|i: int|
        0 <= i < t.children@.len() ==> node_matches(
            #[trigger] t.children@[i],
            spec_child(s, i)->Some_0,
        )
}

fn parse_node(c: &str) -> (n: CommentNode)
    ensures
        node_matches(n, c@),
{
    match get_field(c, "data") {
        Some(d) => CommentNode {
            id: get_str_field(d.as_str(), "id"),
            replies_raw: get_field(d.as_str(), "replies"),
        },
        None => CommentNode { id: None, replies_raw: None },
    }
}

/// Parses one listing body into the canonical shape; a body that is not a
/// well-shaped listing does not decode.
pub fn parse_listing(body: &str) -> (r: Result<CommentTree, ParseError>)
    ensures
        r is Ok <==> spec_listing_ok(body@),
        r is Err ==> r == Err::<CommentTree, ParseError>(ParseError::Decode),
        r is Ok ==> tree_matches(r->Ok_0, body@),
{
    let data = match get_field(body, "data") {
        Some(d) => d,
        None => return Err(ParseError::Decode),
    };
    let after = get_str_field(data.as_str(), "after");
    let children = match get_field(data.as_str(), "children") {
        Some(c) => c,
        None => return Err(ParseError::Decode),
    };
    let n = match get_array_len(children.as_str()) {
        Some(n) => n,
        None => return Err(ParseError::Decode),
    };
    let mut nodes: Vec<CommentNode> = Vec::new();
    let mut i: usize = 0;
    while i < n
        invariant
            i <= n,
            spec_listing_data(body@) == Some(data@),
            spec_listing_children(body@) == Some(children@),
            spec_listing_len(body@) == Some(n as int),
            nodes@.len() == i,
            forall|j: int|
                0 <= j < i ==> (#[trigger] spec_child(body@, j)) is Some && node_matches(
                    nodes@[j],
                    spec_child(body@, j)->Some_0,
                ),
        decreases n - i,
    {
        let c_opt = get_array_elem(children.as_str(), i);
        if c_opt.is_none() {
            assert(spec_child(body@, i as int) is None);
            return Err(ParseError::Decode);
        }
        let c = c_opt.unwrap();
        nodes.push(parse_node(c.as_str()));
        i += 1;
    }
    Ok(CommentTree { after, children: nodes })
}

/// Takes the listing out of a post-scoped response array: its last element,
/// when the array holds at least one.
pub open spec fn spec_post_listing(s: Seq<char>) -> Option<Seq<char>> {
    match json_array_len(s) {
        Some(n) => if n >= 1 {
            json_array_elem(s, n - 1)
        } else {
            None
        },
        None => None,
    }
}

/// Normalizes a raw comment response of the given endpoint kind into the
/// canonical shape. Forum-scoped bodies are one listing object; post-scoped
/// bodies are an array of listings of which the last is taken. A post-scoped
/// array with no element at all is `UnexpectedShape`, never a crash.
pub fn normalize(body: &str, kind: EndpointKind) -> (r: Result<CommentTree, ParseError>)
    ensures
        kind is ForumScoped ==> {
            &&& (r is Ok <==> spec_listing_ok(body@))
            &&& (r is Err ==> r == Err::<CommentTree, ParseError>(ParseError::Decode))
            &&& (r is Ok ==> tree_matches(r->Ok_0, body@))
        },
        kind is PostScoped ==> {
            &&& (r == Err::<CommentTree, ParseError>(ParseError::UnexpectedShape) <==> json_array_len(
                body@,
            ) == Some(0int))
            &&& (r is Ok <==> spec_post_listing(body@) is Some && spec_listing_ok(
                spec_post_listing(body@)->Some_0,
            ))
            &&& (r is Ok ==> tree_matches(r->Ok_0, spec_post_listing(body@)->Some_0))
        },
{
    match kind {
        EndpointKind::ForumScoped => parse_listing(body),
        EndpointKind::PostScoped => {
            let n = match get_array_len(body) {
                Some(n) => n,
                None => return Err(ParseError::Decode),
            };
            if n == 0 {
                return Err(ParseError::UnexpectedShape);
            }
            let e = match get_array_elem(body, n - 1) {
                Some(e) => e,
                None => return Err(ParseError::Decode),
            };
            parse_listing(e.as_str())
        },
    }
}

/// The whole receiving side of a comment endpoint: a response with a 4xx or
/// 5xx status is a `Status` failure carrying status and raw body; any other
/// status hands the body to the normalizer for the given endpoint kind, whose
/// failures come back as `Parse`.
pub fn normalize_response(status: u16, body: String, kind: EndpointKind) -> (r: Result<
    CommentTree,
    RouxError,
>)
    ensures
        400 <= status < 600 ==> r == Err::<CommentTree, RouxError>(
            RouxError::Status(status, body),
        ),
        !(400 <= status < 600) && kind is ForumScoped ==> {
            &&& (r is Ok <==> spec_listing_ok(body@))
            &&& (r is Ok ==> tree_matches(r->Ok_0, body@))
            &&& (r is Err ==> r == Err::<CommentTree, RouxError>(
                RouxError::Parse(ParseError::Decode),
            ))
        },
        !(400 <= status < 600) && kind is PostScoped ==> {
            &&& (r == Err::<CommentTree, RouxError>(RouxError::Parse(ParseError::UnexpectedShape))
                <==> json_array_len(body@) == Some(0int))
            &&& (r is Ok <==> spec_post_listing(body@) is Some && spec_listing_ok(
                spec_post_listing(body@)->Some_0,
            ))
            &&& (r is Ok ==> tree_matches(r->Ok_0, spec_post_listing(body@)->Some_0))
        },
{
    match classify_response(status, body) {
        Err(e) => Err(e),
        Ok(b) => match normalize(b.as_str(), kind) {
            Ok(t) => Ok(t),
            Err(e) => Err(RouxError::Parse(e)),
        },
    }
}

impl CommentNode {
    /// The replies nested under this node, normalized in turn: one more page
    /// of the same canonical shape. Nothing when the node has no replies or
    /// carries the empty stub the upstream uses for none.
    pub fn replies(&self) -> (r: Option<CommentTree>)
        ensures
            match self.replies_raw {
                Some(raw) => if spec_listing_ok(raw@) {
                    r is Some && tree_matches(r->Some_0, raw@)
                } else {
                    r is None
                },
                None => r is None,
            },
    {
        match &self.replies_raw {
            Some(raw) => match parse_listing(raw.as_str()) {
                Ok(t) => Some(t),
                Err(_) => None,
            },
            None => None,
        }
    }
}

/// The data a node holds, seen as character sequences.
pub open spec fn node_view(n: CommentNode) -> (Option<Seq<char>>, Option<Seq<char>>) {
    (n.id.deep_view(), n.replies_raw.deep_view())
}

/// The data a tree holds, seen as character sequences.
pub open spec fn tree_view(t: CommentTree) -> (
    Option<Seq<char>>,
    Seq<(Option<Seq<char>>, Option<Seq<char>>)>,
) {
    (t.after.deep_view(), t.children@.map_values(|n: CommentNode| node_view(n)))
}

/// A listing body has one normal form: any two trees that are its normal
/// form hold the same data.
pub proof fn lemma_normal_form_unique(t1: CommentTree, t2: CommentTree, s: Seq<char>)
    requires
        tree_matches(t1, s),
        tree_matches(t2, s),
    ensures
        tree_view(t1) == tree_view(t2),
{
    let v1 = t1.children@.map_values(|n: CommentNode| node_view(n));
    let v2 = t2.children@.map_values(|n: CommentNode| node_view(n));
    assert(t1.children@.len() == t2.children@.len());
    assert forall|i: int| 0 <= i < v1.len() implies v1[i] == v2[i] by {
        assert(node_matches(t1.children@[i], spec_child(s, i)->Some_0));
        assert(node_matches(t2.children@[i], spec_child(s, i)->Some_0));
    }
    assert(v1 =~= v2);
}

/// The two scopes converge: when the trailing element of a post-scoped
/// response array is a forum-scoped listing body, the normal form of the
/// post-scoped response and the normal form of that listing hold the same
/// data.
pub proof fn lemma_scopes_converge(
    post_body: Seq<char>,
    forum_body: Seq<char>,
    tp: CommentTree,
    tf: CommentTree,
)
    requires
        spec_post_listing(post_body) == Some(forum_body),
        tree_matches(tp, spec_post_listing(post_body)->Some_0),
        tree_matches(tf, forum_body),
    ensures
        tree_view(tp) == tree_view(tf),
{
    lemma_normal_form_unique(tp, tf, forum_body);
}

} // verus!
