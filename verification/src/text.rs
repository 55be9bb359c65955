//! Small string helpers shared by the platform and configuration modules.

use vstd::prelude::*;
use vstd::string::StringExecFns;

verus! {

/// Compares two string slices by their character sequences.
pub fn str_eq(a: &str, b: &str) -> (r: bool)
    ensures
        r == (a@ == b@),
{
    let x: String = a.to_owned();
    let y: String = b.to_owned();
    x == y
}

/// The character sequence of `base` followed by a single separator and `child`.
pub open spec fn join_path(base: Seq<char>, child: Seq<char>) -> Seq<char> {
    base + "/"@ + child
}

/// Joins one path component onto a base path with a `/` separator.
pub fn path_join(base: &str, child: &str) -> (r: String)
    ensures
        r@ == join_path(base@, child@),
{
    let mut s: String = base.to_owned();
    s.append("/");
    s.append(child);
    s
}

} // verus!
