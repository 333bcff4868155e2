//! A module nested inside [`super`], with one restriction per item.

use vstd::prelude::*;
use vstd::string::StringExecFns;

verus! {

/// Public to everyone, though the path to it still matters.
pub fn function() -> (r: &'static str)
    ensures
        r@ == "called `my_mod::nested::function()`"@,
{
    "called `my_mod::nested::function()`"
}

/// `pub(self)` is the same as leaving the item private.
pub(self) fn public_function_in_nested() -> (r: &'static str)
    ensures
        r@ == "called `my_mod::nested::public_function_in_nested()`"@,
{
    "called `my_mod::nested::public_function_in_nested()`"
}

/// Visible only within the named ancestor module.
pub(in crate::visibility::my_mod) fn public_function_in_my_mod() -> (r: String)
    ensures
        r@ == "called `my_mod::nested::public_function_in_my_mod()`, that\n> "@
            + "called `my_mod::nested::public_function_in_nested()`"@,
{
    let mut r = String::from_str("called `my_mod::nested::public_function_in_my_mod()`, that\n> ");
    let inner = public_function_in_nested();
    r.append(inner);
    r
}

/// Visible one level up, in the parent module.
pub(super) fn public_function_in_super_mod() -> (r: &'static str)
    ensures
        r@ == "called `my_mod::nested::public_function_in_super_mod()`"@,
{
    "called `my_mod::nested::public_function_in_super_mod()`"
}

} // verus!
