//! Path splitting for the record fields: the base name of a file path and
//! its directory component. A path is split at its last `/`; the base name
//! is what follows it, the module what precedes it.

use vstd::prelude::*;
use vstd::string::StrSliceExecFns;

verus! {

/// The index right after the last `/` of `s`, or `0` if `s` has none.
pub open spec fn basename_start(s: Seq<char>) -> int
    decreases s.len(),
{
    if s.len() == 0 {
        0
    } else if s[s.len() - 1] == '/' {
        s.len() as int
    } else {
        basename_start(s.drop_last())
    }
}

/// `basename_start` always lies within the path's bounds.
pub proof fn lemma_basename_start_bounds(s: Seq<char>)
    ensures
        0 <= basename_start(s) <= s.len(),
    decreases s.len(),
{
    if s.len() > 0 && s[s.len() - 1] != '/' {
        lemma_basename_start_bounds(s.drop_last());
    }
}

/// The base name of a path: what follows the last `/`; `None` when that is
/// empty (an empty path, or one ending in `/`).
pub open spec fn spec_filename(s: Seq<char>) -> Option<Seq<char>> {
    if basename_start(s) == s.len() {
        None
    } else {
        Some(s.subrange(basename_start(s), s.len() as int))
    }
}

/// The directory component of a path: what precedes the last `/`, the root
/// `/` kept as itself; `""` when the path has no `/`; `None` only for the
/// empty path.
pub open spec fn spec_module(s: Seq<char>) -> Option<Seq<char>> {
    if s.len() == 0 {
        None
    } else if basename_start(s) == 0 {
        Some(Seq::empty())
    } else if basename_start(s) == 1 {
        Some(s.subrange(0, 1))
    } else {
        Some(s.subrange(0, basename_start(s) - 1))
    }
}

/// The index right after the last `/` of `path`, or `0` if it has none.
fn find_basename_start(path: &str) -> (r: usize)
    ensures
        r as int == basename_start(path@),
{
    let n = path.unicode_len();
    let mut j = n;
    proof {
        assert(path@.take(n as int) =~= path@);
    }
    while j > 0
        invariant
            0 <= j <= n,
            n as int == path@.len(),
            basename_start(path@) == basename_start(path@.take(j as int)),
        decreases j,
    {
        let c = path.get_char(j - 1);
        if c == '/' {
            proof {
                assert(path@.take(j as int).len() == j as int);
                assert(path@.take(j as int)[j - 1] == path@[j - 1]);
            }
            return j;
        }
        proof {
            assert(path@.take(j as int)[j - 1] == path@[j - 1]);
            assert(path@.take(j as int).drop_last() =~= path@.take(j as int - 1));
        }
        j = j - 1;
    }
    proof {
        assert(path@.take(0) =~= Seq::<char>::empty());
    }
    0
}

/// The base name of `path`: the part after its last `/`, or `None` when that
/// part is empty.
pub fn get_filename(path: &String) -> (r: Option<&str>)
    ensures
        match r {
            Some(s) => spec_filename(path@) == Some(s@),
            None => spec_filename(path@) is None,
        },
{
    proof {
        lemma_basename_start_bounds(path@);
    }
    let n = path.as_str().unicode_len();
    let st = find_basename_start(path.as_str());
    if st == n {
        None
    } else {
        Some(path.as_str().substring_char(st, n))
    }
}

/// The directory component of `path`: the part before its last `/` (the
/// root `/` kept as itself), `""` when it has no `/`, and `None` only when
/// the path is empty.
pub fn get_module(path: &String) -> (r: Option<&str>)
    ensures
        match r {
            Some(s) => spec_module(path@) == Some(s@),
            None => spec_module(path@) is None,
        },
{
    proof {
        lemma_basename_start_bounds(path@);
    }
    let n = path.as_str().unicode_len();
    let st = find_basename_start(path.as_str());
    if n == 0 {
        None
    } else if st == 0 {
        Some(path.as_str().substring_char(0, 0))
    } else if st == 1 {
        Some(path.as_str().substring_char(0, 1))
    } else {
        Some(path.as_str().substring_char(0, st - 1))
    }
}

} // verus!
