//! Turning a request path into a file path under the public root.

use crate::text::fields;
use relative_path::RelativePath;
use vstd::prelude::*;

verus! {

/// The path separator `/`.
pub open spec fn slash() -> spec_fn(char) -> bool {
    |c: char| c == '/'
}

/// The non-empty `/`-separated segments of a relative path.
pub open spec fn segments(rel: Seq<char>) -> Seq<Seq<char>> {
    fields(rel, slash())
}

/// `base` with each of `parts` appended in order, a `/` before each part
/// unless the path built so far is empty.
pub open spec fn join_onto(base: Seq<char>, parts: Seq<Seq<char>>) -> Seq<char>
    decreases parts.len(),
{
    if parts.len() == 0 {
        base
    } else {
        let next = if base.len() == 0 {
            parts[0]
        } else {
            base + seq!['/'] + parts[0]
        };
        join_onto(next, parts.drop_first())
    }
}

/// The characters of `index.html`.
pub open spec fn index_html() -> Seq<char> {
    seq!['i', 'n', 'd', 'e', 'x', '.', 'h', 't', 'm', 'l']
}

/// The characters of `..`.
pub open spec fn parent_dir() -> Seq<char> {
    seq!['.', '.']
}

/// A request path as a path relative to the public root, which is also its
/// cache key: `/` is the root document `index.html`, and any other path
/// loses one leading `/`.
pub open spec fn normalized(uri: Seq<char>) -> Seq<char> {
    if uri == seq!['/'] {
        index_html()
    } else if uri.len() > 0 && uri[0] == '/' {
        uri.drop_first()
    } else {
        uri
    }
}

/// Whether a relative path climbs out of the directory it is resolved in.
pub open spec fn escapes_root(rel: Seq<char>) -> bool {
    segments(rel).contains(parent_dir())
}

/// The file that a request path names under `root`, or `None` where the
/// path would step outside `root`.
pub open spec fn resolved_path(root: Seq<char>, uri: Seq<char>) -> Option<Seq<char>> {
    let rel = normalized(uri);
    if escapes_root(rel) {
        None
    } else {
        Some(join_onto(root, segments(rel)))
    }
}

/// Relies on `relative_path::RelativePath::components`: the non-empty
/// `/`-separated segments of `rel`, where `.` and `..` come back as written.
#[verifier::external_body]
fn path_components(rel: &str) -> (r: Vec<String>)
    ensures
        r@.len() == segments(rel@).len(),
        forall|i: int| 0 <= i < r@.len() ==> #[trigger] r@[i]@ == segments(rel@)[i],
{
    RelativePath::new(rel).components().map(|c| c.as_str().to_owned()).collect()
}

/// Relies on `relative_path::RelativePath::to_path` on Unix: each segment of
/// `rel` is pushed onto `base`, after the `/` separator unless the path is
/// still empty.
#[verifier::external_body]
fn relative_to_path(rel: &str, base: &str) -> (r: String)
    ensures
        r@ == join_onto(base@, segments(rel@)),
{
    RelativePath::new(rel).to_path(base).to_string_lossy().into_owned()
}

/// The relative path and cache key of a request path.
pub fn normalize(uri: &str) -> (r: String)
    ensures
        r@ == normalized(uri@),
{
    let n = uri.unicode_len();
    if n == 0 || uri.get_char(0) != '/' {
        return uri.to_owned();
    }
    if n == 1 {
        let r = "index.html".to_owned();
        proof {
            reveal_strlit("index.html");
        }
        assert(uri@ =~= seq!['/']);
        assert(r@ =~= index_html());
        return r;
    }
    assert(uri@ != seq!['/']);
    uri.substring_char(1, n).to_owned()
}

/// Whether the relative path `rel` holds a `..` segment.
pub fn climbs_out(rel: &str) -> (r: bool)
    ensures
        r == escapes_root(rel@),
{
    let parts = path_components(rel);
    let parent = "..".to_owned();
    proof {
        reveal_strlit("..");
    }
    assert(parent@ =~= parent_dir());
    let mut i: usize = 0;
    while i < parts.len()
        invariant
            i <= parts@.len(),
            parent@ == parent_dir(),
            parts@.len() == segments(rel@).len(),
            forall|j: int| 0 <= j < parts@.len() ==> #[trigger] parts@[j]@ == segments(rel@)[j],
            forall|j: int| 0 <= j < i ==> segments(rel@)[j] != parent_dir(),
        decreases parts@.len() - i,
    {
        if parts[i] == parent {
            assert(segments(rel@)[i as int] == parent_dir());
            return true;
        }
        i = i + 1;
    }
    assert(!segments(rel@).contains(parent_dir())) by {
        if segments(rel@).contains(parent_dir()) {
            let k = choose|k: int| 0 <= k < segments(rel@).len() && segments(rel@)[k] == parent_dir();
            assert(segments(rel@)[k] != parent_dir());
        }
    }
    false
}

/// The file that `uri` names under `root`; `None` where it would step
/// outside `root`.
pub fn resource_path(root: &str, uri: &str) -> (r: Option<String>)
    ensures
        match r {
            Some(p) => resolved_path(root@, uri@) == Some(p@),
            None => resolved_path(root@, uri@) is None,
        },
{
    let rel = normalize(uri);
    if climbs_out(rel.as_str()) {
        None
    } else {
        Some(relative_to_path(rel.as_str(), root))
    }
}

} // verus!
