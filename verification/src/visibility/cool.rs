//! A sibling module reached with a crate-rooted path.

use vstd::prelude::*;

verus! {

/// Reports its path when called.
pub fn function() -> (r: &'static str)
    ensures
        r@ == "called `cool::function()`"@,
{
    "called `cool::function()`"
}

} // verus!
