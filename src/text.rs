//! Building the messages and paths that the pipeline hands back.

use vstd::prelude::*;

verus! {

/// `prefix` followed by `detail`.
pub fn prefixed(prefix: &str, detail: &str) -> (r: String)
    ensures
        r@ == prefix@ + detail@,
{
    let mut r = prefix.to_string();
    r.append(detail);
    r
}

} // verus!
