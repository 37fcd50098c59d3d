//! Paths as text, with `/` between their components.

use vstd::prelude::*;
use vstd::string::*;

verus! {

/// Whether a path starts at the root of the file system.
pub open spec fn absolute(path: Seq<char>) -> bool {
    path.len() > 0 && path[0] == '/'
}

/// The path that extending `base` by `part` gives. An absolute `part`
/// replaces `base`; otherwise `part` follows `base`, after a separator
/// unless `base` is empty or already ends in one.
pub open spec fn joined(base: Seq<char>, part: Seq<char>) -> Seq<char> {
    if absolute(part) {
        part
    } else if base.len() == 0 || base.last() == '/' {
        base + part
    } else {
        base + seq!['/'] + part
    }
}

/// Tells whether `path` starts at the root of the file system.
pub fn is_absolute(path: &str) -> (r: bool)
    ensures
        r == absolute(path@),
{
    path.unicode_len() > 0 && path.get_char(0) == '/'
}

/// Extends `base` by `part`.
pub fn join(base: &str, part: &str) -> (r: String)
    ensures
        r@ == joined(base@, part@),
{
    if is_absolute(part) {
        String::from_str(part)
    } else {
        let mut out = String::from_str(base);
        let n: usize = base.unicode_len();
        if n > 0 && base.get_char(n - 1) != '/' {
            proof {
                reveal_strlit("/");
            }
            out.append("/");
        }
        out.append(part);
        out
    }
}

} // verus!
