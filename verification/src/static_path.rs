//! The containment check behind static serving: a file is served only when
//! its canonical path — symlinks resolved, dot segments eliminated, by the
//! operating system, outside this library — is a descendant of the served
//! root. Both paths arrive here as their canonical components.

use vstd::prelude::*;
use vstd::string::StrSliceExecFns;
use crate::text::str_eq;

verus! {

/// Component-wise containment: the root's components are a prefix of the
/// candidate's.
pub open spec fn is_within_root(root: Seq<Seq<char>>, path: Seq<Seq<char>>) -> bool {
    root.len() <= path.len() && (forall|i: int| 0 <= i < root.len() ==> path[i] == root[i])
}

/// Whether the canonical path `path` lies under the canonical root `root`,
/// both given as their components.
pub fn path_within_root(root: &Vec<String>, path: &Vec<String>) -> (r: bool)
    ensures
        r == is_within_root(root.deep_view(), path.deep_view()),
{
    if path.len() < root.len() {
        return false;
    }
    let mut i: usize = 0;
    while i < root.len()
        invariant
            root@.len() <= path@.len(),
            i <= root@.len(),
            forall|j: int| 0 <= j < i ==> path.deep_view()[j] == root.deep_view()[j],
        decreases root@.len() - i,
    {
        if !str_eq(root[i].as_str(), path[i].as_str()) {
            assert(path.deep_view()[i as int] != root.deep_view()[i as int]);
            return false;
        }
        assert(path.deep_view()[i as int] == root.deep_view()[i as int]);
        i += 1;
    }
    true
}

/// A request path names a static-file candidate exactly when something
/// follows the leading slash; the candidate is the path with that first
/// character removed, to be resolved against the served root.
pub fn static_candidate(path: &str) -> (r: Option<&str>)
    ensures
        match r {
            Some(rel) => path@.len() > 1 && rel@ == path@.subrange(1, path@.len() as int),
            None => path@.len() <= 1,
        },
{
    let n = path.unicode_len();
    if n > 1 {
        Some(path.substring_char(1, n))
    } else {
        None
    }
}

/// The serving decision: content may be returned only for a successfully
/// canonicalized path that lies within the root; a canonicalization
/// failure, reported as no path at all, is never served.
pub fn may_serve_static(root: &Vec<String>, canonical: Option<&Vec<String>>) -> (r: bool)
    ensures
        r == match canonical {
            Some(p) => is_within_root(root.deep_view(), p.deep_view()),
            None => false,
        },
{
    match canonical {
        Some(p) => path_within_root(root, p),
        None => false,
    }
}

/// No escape: a canonical path that leaves the root — shorter than the
/// root, or differing from it in any component of the root's range — is
/// never within it, so static serving never returns content for it.
pub proof fn lemma_escape_refused(root: Seq<Seq<char>>, path: Seq<Seq<char>>)
    requires
        exists|i: int| 0 <= i < root.len() && (i >= path.len() || path[i] != root[i]),
    ensures
        !is_within_root(root, path),
{
    let i = choose|i: int| 0 <= i < root.len() && (i >= path.len() || path[i] != root[i]);
    if is_within_root(root, path) {
        assert(path[i] == root[i]);
    }
}

} // verus!
