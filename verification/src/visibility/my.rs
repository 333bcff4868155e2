//! `self` and `super` paths: the same functions reached four ways.

use crate::visibility::cool::function as root_function;
use vstd::prelude::*;

mod cool;

verus! {

fn function() -> (r: &'static str)
    ensures
        r@ == "called `my::function()`"@,
{
    "called `my::function()`"
}

/// Calls through `self`, a plain name, a nested module, `super`, and a
/// crate-rooted alias, and hands the five reports back in order.
pub fn indirect_call() -> (r: Vec<&'static str>)
    ensures
        r@.len() == 6,
        r@[0]@ == "called `my::indirect_call()`, that"@,
        r@[1]@ == "called `my::function()`"@,
        r@[2]@ == "called `my::function()`"@,
        r@[3]@ == "called `my::cool::function()`"@,
        r@[4]@ == "called `function()`"@,
        r@[5]@ == "called `cool::function()`"@,
{
    let mut r: Vec<&'static str> = Vec::new();
    r.push("called `my::indirect_call()`, that");
    r.push(self::function());
    r.push(function());
    r.push(self::cool::function());
    r.push(super::function());
    r.push(root_function());
    r
}

} // verus!
