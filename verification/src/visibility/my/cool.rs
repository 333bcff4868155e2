//! A nested module shadowing the name of a sibling of its parent.

use vstd::prelude::*;

verus! {

/// Reports its nested path when called.
pub fn function() -> (r: &'static str)
    ensures
        r@ == "called `my::cool::function()`"@,
{
    "called `my::cool::function()`"
}

} // verus!
