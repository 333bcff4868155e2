//! Variable bindings: mutability, scope, shadowing, late
//! initialization, and freezing by shadowed immutability.

use vstd::prelude::*;

verus! {

/// Values move into bindings; a copyable value is simply copied.
pub fn intro() -> (r: (u32, bool))
    ensures
        r == (1u32, true),
{
    let an_integer = 1u32;
    let a_boolean: bool = true;
    let unit: () = ();
    assert(unit == ());

    let copied_integer = an_integer;
    (copied_integer, a_boolean)
}

/// Only a `mut` binding may change.
pub fn mutability() -> (r: i32)
    ensures
        r == 2,
{
    let immutable_binding: i32 = 1;
    assert(immutable_binding == 1);

    let mut mutable_binding: i32 = 1;
    assert(mutable_binding == 1);
    mutable_binding += 1;
    assert(mutable_binding == 2);
    mutable_binding
}

/// A binding made in an inner block dies with the block; the outer one
/// lives on.
pub fn scope() -> (r: i32)
    ensures
        r == 1,
{
    let long_lived_binding: i32 = 1;
    {
        let short_lived_binding: i32 = 2;
        assert(short_lived_binding == 2);
    }
    long_lived_binding
}

/// A shadow in a block hides the binding until the block ends; a later
/// shadow replaces it for good.
pub fn shadowing() -> (r: i32)
    ensures
        r == 2,
{
    let shadowed_binding: i32 = 1;
    {
        assert(shadowed_binding == 1);
        let shadowed_binding = "abc";
        assert(shadowed_binding@ == "abc"@);
    }
    assert(shadowed_binding == 1);

    let shadowed_binding: i32 = 2;
    shadowed_binding
}

/// A binding may be declared first and given a value later, once.
pub fn declare_first() -> (r: (i32, i32))
    ensures
        r == (4i32, 1i32),
{
    let a_binding: i32;
    {
        let x: i32 = 2;
        proof {
            assert(x * x == 4) by (nonlinear_arith)
                requires
                    x == 2i32,
            ;
        }
        a_binding = x * x;
    }
    assert(a_binding == 4);

    let another_binding: i32;
    another_binding = 1;
    (a_binding, another_binding)
}

/// Shadowing by an immutable binding freezes the value inside the inner
/// scope; outside, the `mut` binding thaws again.
pub fn freezing() -> (r: i32)
    ensures
        r == 3,
{
    let mut mutable_integer: i32 = 7;
    {
        let mutable_integer = mutable_integer;
        assert(mutable_integer == 7);
        // frozen in this scope: no assignment possible
    }
    mutable_integer = 3;
    mutable_integer
}

} // verus!
