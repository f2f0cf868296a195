//! A plain-text model of filesystem paths.
//!
//! Paths are held as strings. A path is absolute when it starts with
//! the path separator; joining appends the right-hand component after
//! a separator. These are the only two path operations the
//! configuration loader depends on.

use vstd::prelude::*;
use vstd::string::StrSliceExecFns;
use vstd::string::StringExecFns;

verus! {

/// An absolute path starts with the separator character.
pub open spec fn abs_path(p: Seq<char>) -> bool {
    p.len() > 0 && p[0] == '/'
}

/// Joining `rel` onto `base`: a separator is inserted unless `base`
/// already ends with one.
pub open spec fn joined(base: Seq<char>, rel: Seq<char>) -> Seq<char> {
    if base.len() > 0 && base.last() == '/' {
        base + rel
    } else {
        base + seq!['/'] + rel
    }
}

/// Whether `p` is an absolute path.
pub fn path_is_absolute(p: &str) -> (r: bool)
    ensures
        r == abs_path(p@),
{
    p.unicode_len() > 0 && p.get_char(0) == '/'
}

/// Join a relative component onto a base path.
pub fn path_join(base: &str, rel: &str) -> (r: String)
    ensures
        r@ == joined(base@, rel@),
{
    let n = base.unicode_len();
    let mut out = base.to_owned();
    if n == 0 || base.get_char(n - 1) != '/' {
        proof {
            reveal_strlit("/");
            assert("/"@ =~= seq!['/']);
        }
        out.append("/");
    }
    out.append(rel);
    proof {
        assert(out@ =~= joined(base@, rel@));
    }
    out
}

} // verus!
