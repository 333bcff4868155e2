//! The far end of the deep path.

use vstd::prelude::*;

verus! {

/// Reports its full path when called.
pub fn function() -> (r: &'static str)
    ensures
        r@ == "called `deeply::nested::function()`"@,
{
    "called `deeply::nested::function()`"
}

} // verus!
