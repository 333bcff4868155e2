//! Attributes: metadata on items, here quieting the dead-code lint.
//! Conditional compilation, the other classic use, has no place in a
//! verified library and stays with the unverified runner.

use vstd::prelude::*;

verus! {

/// An attribute is metadata applied to a module, crate or item: it can
/// steer compilation, name the crate, disable lints, or mark tests.
pub fn intro() {
}

fn used_function() {
}

#[allow(dead_code)]
fn unused_function() {
}

/// The unused function above would draw a lint; the attribute on it
/// keeps the build quiet while only this one is called.
pub fn dead_code() {
    used_function();
}

} // verus!
