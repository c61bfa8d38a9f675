//! Which request paths may name a cache object.
use vstd::prelude::*;

verus! {

/// `s` holds a `..` segment that starts at `i`.
pub open spec fn parent_segment_at(s: Seq<char>, i: int) -> bool {
    &&& 0 <= i
    &&& i + 2 <= s.len()
    &&& s[i] == '.'
    &&& s[i + 1] == '.'
    &&& (i == 0 || s[i - 1] == '/')
    &&& (i + 2 == s.len() || s[i + 2] == '/')
}

/// `s` is a relative path whose first segment is `.`.
pub open spec fn leads_with_current(s: Seq<char>) -> bool {
    s.len() >= 1 && s[0] == '.' && (s.len() == 1 || s[1] == '/')
}

/// A path made only of a leading root and plain segments: no `..`
/// segment anywhere and no leading `.` segment.
pub open spec fn is_valid_path(s: Seq<char>) -> bool {
    &&& !leads_with_current(s)
    &&& forall|i: int| !parent_segment_at(s, i)
}

fn parent_segment_at_exec(p: &str, n: usize, i: usize) -> (r: bool)
    requires
        n == p@.len(),
        i < n,
    ensures
        r == parent_segment_at(p@, i as int),
{
    if n - i < 2 {
        return false;
    }
    if p.get_char(i) != '.' || p.get_char(i + 1) != '.' {
        return false;
    }
    let before = i == 0 || p.get_char(i - 1) == '/';
    let after = n - i == 2 || p.get_char(i + 2) == '/';
    before && after
}

/// Tells whether `path` may name a cache object: it holds no parent-directory
/// segment and does not start with a current-directory segment.
pub fn valid_path(path: &str) -> (r: bool)
    ensures
        r == is_valid_path(path@),
{
    let n = path.unicode_len();
    if n >= 1 && path.get_char(0) == '.' && (n == 1 || path.get_char(1) == '/') {
        return false;
    }
    let mut i: usize = 0;
    while i < n
        invariant
            n == path@.len(),
            i <= n,
            forall|j: int| 0 <= j < i ==> !parent_segment_at(path@, j),
        decreases n - i,
    {
        if parent_segment_at_exec(path, n, i) {
            return false;
        }
        i = i + 1;
    }
    true
}

} // verus!
