//! A private module: its public items still cannot be reached from
//! outside the parent.

use vstd::prelude::*;

verus! {

/// Public inside a private module: unreachable from outside `my_mod`.
pub fn function() -> (r: &'static str)
    ensures
        r@ == "called `my_mod::private_nested::function()`"@,
{
    "called `my_mod::private_nested::function()`"
}

/// Restricted to the crate, but the private module wall still stands.
#[allow(dead_code)]
pub(crate) fn restricted_function() -> (r: &'static str)
    ensures
        r@ == "called `my_mod::private_nested::restricted_function()`"@,
{
    "called `my_mod::private_nested::restricted_function()`"
}

} // verus!
