//! Primitive types: scalars and their inference, literals and
//! operators, tuples, and arrays with slices.

use vstd::prelude::*;

verus! {

/// Annotated, suffixed and inferred bindings; a `mut` binding can
/// change its value, and shadowing can even change its type.
pub fn types() -> (r: (i64, bool))
    ensures
        r == (4294967296i64, true),
{
    let logical: bool = true;
    assert(logical);

    let default_integer: i32 = 7;
    let an_integer = 5i32;
    assert(default_integer == 7 && an_integer == 5);

    let mut inferred_type: i64 = 12;
    inferred_type = 4294967296i64;

    let mut mutable: i32 = 12;
    mutable = 21;
    assert(mutable == 21);
    let mutable: bool = true;  // overwritten with shadowing
    (inferred_type, mutable)
}

/// Addition, subtraction, boolean connectives, bitwise operators and
/// shifts, each with its proved result.
pub fn literals_and_operators() -> (r: (u32, i32, u32, u32, u32, u32, u32))
    ensures
        r == (3u32, -1i32, 0b0001u32, 0b0111u32, 0b0110u32, 32u32, 0x20u32),
{
    let sum: u32 = 1 + 2;
    let difference: i32 = 1 - 2;
    assert(sum == 3 && difference == -1);

    assert(!(true && false));
    assert(true || false);
    assert(!true == false);

    let and: u32 = 0b0011 & 0b0101;
    let or: u32 = 0b0011 | 0b0101;
    let xor: u32 = 0b0011 ^ 0b0101;
    let shifted_left: u32 = 1 << 5;
    let shifted_right: u32 = 0x80 >> 2;
    proof {
        assert(0b0011u32 & 0b0101 == 0b0001) by (bit_vector);
        assert(0b0011u32 | 0b0101 == 0b0111) by (bit_vector);
        assert(0b0011u32 ^ 0b0101 == 0b0110) by (bit_vector);
        assert(1u32 << 5 == 32) by (bit_vector);
        assert(0x80u32 >> 2 == 0x20) by (bit_vector);
    }

    let million: u32 = 1_000_000;  // underscores improve readability
    assert(million == 1000000);

    (sum, difference, and, or, xor, shifted_left, shifted_right)
}

/// Tuples mix types, nest, and come apart by destructuring.
pub fn tuples() -> (r: (u8, u16, i64, bool))
    ensures
        r == (1u8, 2u16, 20i64, true),
{
    let long_tuple = (1u8, 2u16, 3u32, 4u64, -1i8, -2i16, -3i32, -4i64, 'a', true);
    assert(long_tuple.0 == 1);
    assert(long_tuple.1 == 2);

    let tuple_of_tuples = ((1u8, 2u16, 2u32), (4u64, -1i8), -2i16);
    assert(tuple_of_tuples.1.0 == 4);

    let one_element_tuple = (5u32,);
    assert(one_element_tuple.0 == 5);

    let tuple = (1i64, 20i64, true);
    let (a, b, d) = tuple;
    assert(a == 1 && b == 20 && d);
    (long_tuple.0, long_tuple.1, b, d)
}

/// Arrays know their length; a slice borrows part of one.
pub fn arrays_and_slices() -> (r: (i32, usize, usize))
    ensures
        r == (1i32, 5usize, 3usize),
{
    let xs: [i32; 5] = [1, 2, 3, 4, 5];
    let first = xs[0];
    let count = xs.len();
    assert(first == 1 && count == 5);

    let ys: [i32; 5] = [0, 0, 0, 0, 0];
    let section: &[i32] = &ys[1..4];
    let section_len = section.len();
    assert(section_len == 3);
    assert(section[0] == 0);
    (first, count, section_len)
}

} // verus!
