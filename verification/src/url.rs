//! Classification of anchor targets: only absolute `http://` or `https://`
//! URLs are kept as traversal candidates; relative paths, fragments,
//! `mailto:` targets and the like are discarded.

use vstd::prelude::*;

verus! {

/// `p` is a prefix of `s`.
pub open spec fn has_prefix_spec(s: Seq<char>, p: Seq<char>) -> bool {
    s.len() >= p.len() && s.subrange(0, p.len() as int) == p
}

/// A URL is absolute exactly when it begins with `http://` or `https://`.
pub open spec fn is_absolute_spec(s: Seq<char>) -> bool {
    has_prefix_spec(s, "http://"@) || has_prefix_spec(s, "https://"@)
}

/// Character-by-character prefix test.
pub fn has_prefix(s: &str, p: &str) -> (r: bool)
    ensures
        r == has_prefix_spec(s@, p@),
{
    let s_len = s.unicode_len();
    let p_len = p.unicode_len();
    if s_len < p_len {
        return false;
    }
    let mut i: usize = 0;
    while i < p_len
        invariant
            i <= p_len,
            p_len == p@.len(),
            p_len <= s_len == s@.len(),
            forall|j: int| 0 <= j < i ==> s@[j] == p@[j],
        decreases p_len - i,
    {
        if s.get_char(i) != p.get_char(i) {
            assert(s@.subrange(0, p@.len() as int)[i as int] != p@[i as int]);
            return false;
        }
        i += 1;
    }
    assert(s@.subrange(0, p@.len() as int) =~= p@);
    true
}

/// Decides whether an anchor target is an absolute URL worth following.
pub fn is_absolute_url(s: &str) -> (r: bool)
    ensures
        r == is_absolute_spec(s@),
{
    has_prefix(s, "http://") || has_prefix(s, "https://")
}

} // verus!
