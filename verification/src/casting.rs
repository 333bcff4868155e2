//! Casting between integer types, inference from later use, and type
//! aliases. When a value is cast to a shorter unsigned type, multiples
//! of one-past-the-maximum are added or subtracted until it fits; a
//! cast to a signed type keeps the bits and rereads the sign.

use vstd::prelude::*;

verus! {

/// Three out-of-range casts with their wrapped results: 1000 loses 768
/// on the way into a byte, minus one becomes the largest byte, and 128
/// turns negative when its top bit becomes a sign.
pub fn casting() -> (r: (u8, u8, i8))
    ensures
        r == (232u8, 255u8, -128i8),
{
    let x: u32 = 1000;
    let as_u8: u8 = #[verifier::truncate] (x as u8);  // 1000 - 256 - 256 - 256 = 232
    proof {
        assert(x == 1000 ==> as_u8 == 232) by (bit_vector)
            requires
                as_u8 == #[verifier::truncate] (x as u8),
        ;
    }

    let minus_one: i8 = -1;
    let wrapped: u8 = #[verifier::truncate] (minus_one as u8);  // -1 + 256 = 255
    proof {
        assert(minus_one == -1 ==> wrapped == 255) by (bit_vector)
            requires
                wrapped == #[verifier::truncate] (minus_one as u8),
        ;
    }

    let high_bit: u8 = 128;
    let signed: i8 = #[verifier::truncate] (high_bit as i8);
    proof {
        assert(high_bit == 128 ==> signed == -128) by (bit_vector)
            requires
                signed == #[verifier::truncate] (high_bit as i8),
        ;
    }

    (as_u8, wrapped, signed)
}

/// The compiler narrows a vector's element type from the first push.
pub fn inference() -> (r: Vec<u8>)
    ensures
        r@ == seq![5u8],
{
    let elem = 5u8;
    let mut vec: Vec<u8> = Vec::new();
    vec.push(elem);
    assert(vec@ =~= seq![5u8]);
    vec
}

/// Nanoseconds measured in an alias of `u64`.
pub type NanoSecond = u64;

/// Inches measured in the same underlying type.
pub type Inch = u64;

/// Aliases name the same type, so their values mix freely.
pub fn aliasing() -> (r: NanoSecond)
    ensures
        r == 7,
{
    let nanoseconds: NanoSecond = 5;
    let inches: Inch = 2;
    nanoseconds + inches
}

} // verus!
