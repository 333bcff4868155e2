use lessons::bindings;
use lessons::casting;
use lessons::conversion::{self, Circle, EvenNumber, MyNumber};
use lessons::expressions;
use lessons::formatting::{
    pad_spaces, pad_zeros, render_base, render_i64, render_listing, render_u64, rgb_hex, str_eq,
};
use lessons::hello;
use lessons::primitives;

#[test]
fn hello_intro_lines() {
    let (first, second) = hello::intro();
    assert_eq!(first, "Hello world!");
    assert_eq!(second, "I'm a Rustacean!");
}

#[test]
fn format_print_pieces() {
    let (days, base10, base2, base8, base16, right, padded) = hello::format_print();
    assert_eq!(days, "31 days");
    assert_eq!(base10, "69420");
    assert_eq!(base2, "10000111100101100");
    assert_eq!(base8, "207454");
    assert_eq!(base16, "10f2c");
    assert_eq!(right, "    1");
    assert_eq!(padded, "00001");
}

#[test]
fn uppercase_hex() {
    assert_eq!(render_base(69420, 16, true), "10F2C");
}

#[test]
fn display_listing() {
    assert_eq!(hello::display(), "[0: 1, 1: 2, 2: 3]");
    assert_eq!(render_listing(&vec![]), "[]");
    assert_eq!(render_listing(&vec![-7]), "[0: -7]");
}

#[test]
fn formatting_colors() {
    let (a, b, c) = hello::formatting();
    assert_eq!(a, "80FF5A");
    assert_eq!(b, "0003FE");
    assert_eq!(c, "000000");
    assert_eq!(rgb_hex(0, 3, 254), "0003FE");
}

#[test]
fn renderers() {
    assert_eq!(render_u64(0), "0");
    assert_eq!(render_u64(18446744073709551615), "18446744073709551615");
    assert_eq!(render_i64(-1), "-1");
    assert_eq!(render_i64(i64::MIN), "-9223372036854775808");
    assert_eq!(render_base(255, 2, false), "11111111");
    assert_eq!(pad_zeros("1", 5), "00001");
    assert_eq!(pad_spaces("1", 5), "    1");
    assert_eq!(pad_zeros("123456", 5), "123456");
}

#[test]
fn string_equality() {
    assert!(str_eq("Ferris", "Ferris"));
    assert!(!str_eq("Ferris", "Bob"));
    assert!(!str_eq("Ferris", "Ferris!"));
    assert!(str_eq("", ""));
}

#[test]
fn primitive_types() {
    assert_eq!(primitives::types(), (4294967296i64, true));
}

#[test]
fn primitive_literals_and_operators() {
    let (sum, difference, and, or, xor, shl, shr) = primitives::literals_and_operators();
    assert_eq!(sum, 3);
    assert_eq!(difference, -1);
    assert_eq!(and, 0b0001);
    assert_eq!(or, 0b0111);
    assert_eq!(xor, 0b0110);
    assert_eq!(shl, 32);
    assert_eq!(shr, 0x20);
}

#[test]
fn primitive_tuples() {
    assert_eq!(primitives::tuples(), (1u8, 2u16, 20i64, true));
}

#[test]
fn primitive_arrays_and_slices() {
    assert_eq!(primitives::arrays_and_slices(), (1, 5, 3));
}

#[test]
fn binding_demos() {
    assert_eq!(bindings::intro(), (1, true));
    assert_eq!(bindings::mutability(), 2);
    assert_eq!(bindings::scope(), 1);
    assert_eq!(bindings::shadowing(), 2);
    assert_eq!(bindings::declare_first(), (4, 1));
    assert_eq!(bindings::freezing(), 3);
}

#[test]
fn casting_wraps() {
    assert_eq!(casting::casting(), (232u8, 255u8, -128i8));
}

#[test]
fn casting_inference() {
    assert_eq!(casting::inference(), vec![5u8]);
}

#[test]
fn casting_aliasing() {
    assert_eq!(casting::aliasing(), 7);
}

#[test]
fn expression_blocks() {
    assert_eq!(expressions::expressions(), (5, 155));
}

#[test]
fn from_and_into() {
    assert_eq!(conversion::from_and_into(), (30, 5));
    let wrapped = MyNumber::from(30);
    assert_eq!(wrapped.value, 30);
}

#[test]
fn try_from_and_try_into() {
    assert_eq!(conversion::try_from_and_try_into(), (true, true, true, true));
    assert!(EvenNumber::try_from(8) == Ok(EvenNumber(8)));
    assert!(EvenNumber::try_from(5) == Err(()));
    let result: Result<EvenNumber, ()> = 8i32.try_into();
    assert!(result == Ok(EvenNumber(8)));
    let result: Result<EvenNumber, ()> = 5i32.try_into();
    assert!(result == Err(()));
}

#[test]
fn circle_text_and_parsing() {
    let (text, sum) = conversion::to_and_from_strings();
    assert_eq!(text, "Circle of radius 6");
    assert_eq!(sum, 15);
    let circle = Circle { radius: -3 };
    assert_eq!(circle.to_string(), "Circle of radius -3");
}

#[test]
fn parse_u32_cases() {
    assert_eq!(conversion::parse_u32("5"), Some(5));
    assert_eq!(conversion::parse_u32("10"), Some(10));
    assert_eq!(conversion::parse_u32("4294967295"), Some(u32::MAX));
    assert_eq!(conversion::parse_u32("4294967296"), None);
    assert_eq!(conversion::parse_u32(""), None);
    assert_eq!(conversion::parse_u32("12a"), None);
    assert_eq!(conversion::parse_u32("-5"), None);
    assert_eq!(conversion::parse_u32("99999999999999999999"), None);
}
