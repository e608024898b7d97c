//! Paths relative to a sandbox root that do not leave it.

use vstd::prelude::*;
use vstd::string::{StrSliceExecFns, StringExecFns};
use crate::error::ResolveError;

verus! {

/// A `..` segment stands at index `i` of the path.
pub open spec fn parent_segment_at(p: Seq<char>, i: int) -> bool {
    &&& 0 <= i
    &&& i + 1 < p.len()
    &&& p[i] == '.'
    &&& p[i + 1] == '.'
    &&& (i == 0 || p[i - 1] == '/')
    &&& (i + 2 == p.len() || p[i + 2] == '/')
}

/// The path is relative and stays within the root it is relative to: it
/// does not start at `/` and has no `..` segment.
pub open spec fn is_contained_relative(p: Seq<char>) -> bool {
    &&& !(p.len() > 0 && p[0] == '/')
    &&& forall|i: int| !#[trigger] parent_segment_at(p, i)
}

/// A path relative to a sandbox root that does not leave it.
pub struct RelativePath {
    path: String,
}

impl View for RelativePath {
    type V = Seq<char>;

    closed spec fn view(&self) -> Seq<char> {
        self.path@
    }
}

impl RelativePath {
    pub closed spec fn wf(&self) -> bool {
        is_contained_relative(self.path@)
    }

    /// Checks that `path` is relative and contained in the root.
    pub fn new(path: &str) -> (r: Result<RelativePath, ResolveError>)
        ensures
            is_contained_relative(path@) <==> r is Ok,
            r matches Ok(p) ==> p@ == path@ && p.wf(),
            r matches Err(e) ==> (e matches ResolveError::InvalidPath { path: q } && q@ == path@),
    {
        let n = path.unicode_len();
        let mut ok = true;
        if n > 0 && path.get_char(0) == '/' {
            ok = false;
        }
        let mut i: usize = 0;
        while ok && i < n
            invariant
                n == path@.len(),
                i <= n,
                ok ==> !(n > 0 && path@[0] == '/'),
                ok ==> forall|k: int| 0 <= k < i ==> !#[trigger] parent_segment_at(path@, k),
                !ok ==> !is_contained_relative(path@),
            decreases n - i,
        {
            if i + 1 < n && path.get_char(i) == '.' && path.get_char(i + 1) == '.' && (i == 0 || path.get_char(
                i - 1,
            ) == '/') && (i + 2 == n || path.get_char(i + 2) == '/') {
                assert(parent_segment_at(path@, i as int));
                ok = false;
            }
            i = i + 1;
        }
        if ok {
            assert forall|k: int| !#[trigger] parent_segment_at(path@, k) by {
                if 0 <= k < i {
                } else {
                }
            }
            Ok(RelativePath { path: String::from_str(path) })
        } else {
            Err(ResolveError::InvalidPath { path: String::from_str(path) })
        }
    }

    /// The path as text.
    pub fn as_str(&self) -> (r: &str)
        ensures
            r@ == self@,
    {
        self.path.as_str()
    }
}

} // verus!
