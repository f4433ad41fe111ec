//! Deriving a track's display name from its file path.
//!
//! The engine displays the base file name of the path it was asked to
//! play: the part of the path after the last separator, or the whole
//! path if it has none.

use vstd::prelude::*;
use vstd::string::StrSliceExecFns;

verus! {

/// The base name of a path: the characters after the last `'/'`, or
/// the whole path if no `'/'` occurs in it.
pub open spec fn base_name_of(s: Seq<char>) -> Seq<char>
    decreases s.len(),
{
    if s.len() == 0 {
        s
    } else if s.last() == '/' {
        Seq::<char>::empty()
    } else {
        base_name_of(s.drop_last()).push(s.last())
    }
}

/// The base name of a path is its suffix from the position just after
/// its last separator.
proof fn lemma_base_name_suffix(s: Seq<char>, i: int)
    requires
        0 <= i <= s.len(),
        forall|j: int| i <= j < s.len() ==> s[j] != '/',
        i == 0 || s[i - 1] == '/',
    ensures
        base_name_of(s) == s.subrange(i, s.len() as int),
    decreases s.len(),
{
    if s.len() == 0 {
        assert(base_name_of(s) =~= s.subrange(i, s.len() as int));
    } else if i == s.len() {
        if i > 0 {
            assert(s.last() == '/');
        }
        assert(base_name_of(s) =~= s.subrange(i, s.len() as int));
    } else {
        assert(s.last() != '/');
        let t = s.drop_last();
        assert(forall|j: int| i <= j < t.len() ==> t[j] != '/');
        lemma_base_name_suffix(t, i);
        assert(base_name_of(s) == base_name_of(t).push(s.last()));
        assert(base_name_of(s) =~= s.subrange(i, s.len() as int));
    }
}

/// Returns the base name of `path`: everything after the last `'/'`,
/// or `path` itself if it contains none.
pub fn base_name(path: &str) -> (r: String)
    ensures
        r@ == base_name_of(path@),
{
    let n = path.unicode_len();
    let mut start: usize = 0;
    let mut j: usize = 0;
    while j < n
        invariant
            j <= n,
            start <= j,
            n == path@.len(),
            start == 0 || path@[start - 1] == '/',
            forall|k: int| start <= k < j ==> path@[k] != '/',
        decreases n - j,
    {
        if path.get_char(j) == '/' {
            start = j + 1;
        }
        j += 1;
    }
    proof {
        lemma_base_name_suffix(path@, start as int);
    }
    let tail = path.substring_char(start, n);
    String::from_str(tail)
}

} // verus!
