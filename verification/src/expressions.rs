//! Blocks are expressions: the last expression without a semicolon is
//! the block's value; a semicolon suppresses it, leaving the unit.

use vstd::prelude::*;

verus! {

/// A block computes the cube plus the square plus the number itself;
/// another block ends on a semicolon and yields the unit value.
pub fn expressions() -> (r: (u32, u32))
    ensures
        r == (5u32, 155u32),
{
    let x: u32 = 5;

    proof {
        assert(x * x == 25 && x * x * x == 125) by (nonlinear_arith)
            requires
                x == 5u32,
        ;
    }
    let y: u32 = {
        let x_squared = x * x;
        let x_cube = x_squared * x;
        x_cube + x_squared + x
    };

    let z: () = {
        let _ = 2 * x;
    };
    assert(z == ());
    (x, y)
}

} // verus!
