//! A module with one item of every visibility: private, public,
//! crate-wide, and the restricted forms inside [`nested`].

use vstd::prelude::*;
use vstd::string::StringExecFns;

pub mod nested;
mod private_nested;

verus! {

fn private_function() -> (r: &'static str)
    ensures
        r@ == "called `my_mod::private_function()`"@,
{
    "called `my_mod::private_function()`"
}

/// Public: callable from anywhere the module itself is visible.
pub fn function() -> (r: &'static str)
    ensures
        r@ == "called `my_mod::function()`"@,
{
    "called `my_mod::function()`"
}

/// A public item may reach the module's private ones.
pub fn indirect_access() -> (r: String)
    ensures
        r@ == "called `my_mod::indirect_access()`, that\n> "@
            + "called `my_mod::private_function()`"@,
{
    let mut r = String::from_str("called `my_mod::indirect_access()`, that\n> ");
    let inner = private_function();
    r.append(inner);
    r
}

/// Reaches into [`nested`] for the two items visible from here.
pub fn call_public_function_in_my_mod() -> (r: String)
    ensures
        r@ == "called `my_mod::call_public_function_in_my_mod()`, that\n> "@
            + "called `my_mod::nested::public_function_in_my_mod()`, that\n> "@
            + "called `my_mod::nested::public_function_in_nested()`"@ + "\n> "@
            + "called `my_mod::nested::public_function_in_super_mod()`"@,
{
    let mut r = String::from_str("called `my_mod::call_public_function_in_my_mod()`, that\n> ");
    let first = nested::public_function_in_my_mod();
    r.append(first.as_str());
    r.append("\n> ");
    let second = nested::public_function_in_super_mod();
    r.append(second);
    r
}

/// `pub(crate)` items can be called from anywhere in the same crate.
pub(crate) fn public_function_in_crate() -> (r: &'static str)
    ensures
        r@ == "called `my_mod::public_function_in_crate()`"@,
{
    "called `my_mod::public_function_in_crate()`"
}

} // verus!
