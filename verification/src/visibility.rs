//! Modules and visibility: public, private, `pub(crate)`, `pub(super)`,
//! `pub(in path)`, struct field visibility, `use` aliases, and `self`
//! and `super` paths.

use crate::visibility::deeply::nested::function as other_function;
use vstd::prelude::*;
use vstd::string::StringExecFns;

pub mod cool;
pub mod deeply;
pub mod my;
pub mod my_box;
pub mod my_mod;

pub use my_box::{ClosedBox, OpenBox};

verus! {

/// Calls into `my_mod` through every path that visibility allows, and
/// proves which report each call hands back.
pub fn visibility() -> (r: Vec<String>)
    ensures
        r@.len() == 5,
        r@[0]@ == "called `my_mod::function()`"@,
        r@[1]@ == "called `my_mod::indirect_access()`, that\n> "@
            + "called `my_mod::private_function()`"@,
        r@[2]@ == "called `my_mod::nested::function()`"@,
        r@[3]@ == "called `my_mod::call_public_function_in_my_mod()`, that\n> "@
            + "called `my_mod::nested::public_function_in_my_mod()`, that\n> "@
            + "called `my_mod::nested::public_function_in_nested()`"@ + "\n> "@
            + "called `my_mod::nested::public_function_in_super_mod()`"@,
        r@[4]@ == "called `my_mod::public_function_in_crate()`"@,
{
    let mut r: Vec<String> = Vec::new();
    r.push(String::from_str(my_mod::function()));
    r.push(my_mod::indirect_access());
    r.push(String::from_str(my_mod::nested::function()));
    r.push(my_mod::call_public_function_in_my_mod());
    r.push(String::from_str(my_mod::public_function_in_crate()));
    r
}

/// An open box is built directly; a closed one only through its
/// constructor, which the contract still sees through.
pub fn struct_visibility() -> (r: &'static str)
    ensures
        r@ == "public information"@,
{
    let open_box = my_box::OpenBox { contents: "public information" };
    let contents = open_box.contents;

    let closed_box = my_box::ClosedBox::new("classified information");
    proof {
        reveal_strlit("classified information");
        assert(closed_box.spec_contents()@ == "classified information"@);
    }
    contents
}

fn function() -> (r: &'static str)
    ensures
        r@ == "called `function()`"@,
{
    "called `function()`"
}

/// A `use` alias brings a deep path close; the local name still wins
/// where both are spelled out.
pub fn use_declaration() -> (r: (&'static str, &'static str))
    ensures
        r.0@ == "called `deeply::nested::function()`"@,
        r.1@ == "called `function()`"@,
{
    let through_alias = other_function();
    let local = function();
    (through_alias, local)
}

/// The five reports of [`my::indirect_call`], checked from outside.
pub fn super_and_self() -> (r: Vec<&'static str>)
    ensures
        r@.len() == 6,
        r@[0]@ == "called `my::indirect_call()`, that"@,
        r@[1]@ == "called `my::function()`"@,
        r@[5]@ == "called `cool::function()`"@,
{
    my::indirect_call()
}

} // verus!
