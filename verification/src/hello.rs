//! The opening lesson: greeting text, positional and named
//! formatting, number bases, padding, and custom display of lists and
//! colors.

use crate::formatting::{
    base_repr, dec_repr, fill_chars, listing_chars, pad_spaces, pad_zeros, render_base,
    render_listing, render_u64, rgb_hex, rgb_hex_chars,
};
use vstd::prelude::*;
use vstd::string::StringExecFns;

verus! {

/// The two opening lines.
pub fn intro() -> (r: (&'static str, &'static str))
    ensures
        r.0@ == "Hello world!"@,
        r.1@ == "I'm a Rustacean!"@,
{
    ("Hello world!", "I'm a Rustacean!")
}

/// Formatted text assembled piece by piece: a count of days, a number
/// in four bases, and a number padded to five columns twice over.
pub fn format_print() -> (r: (String, String, String, String, String, String, String))
    ensures
        r.0@ == dec_repr(31) + " days"@,
        r.1@ == base_repr(69420, 10, false),
        r.2@ == base_repr(69420, 2, false),
        r.3@ == base_repr(69420, 8, false),
        r.4@ == base_repr(69420, 16, false),
        r.5@ == fill_chars(1, 5, ' ') + dec_repr(1),
        r.6@ == fill_chars(1, 5, '0') + dec_repr(1),
{
    let mut days = render_u64(31);
    proof {
        reveal_strlit(" days");
    }
    days.append(" days");

    let base10 = render_base(69420, 10, false);
    let base2 = render_base(69420, 2, false);
    let base8 = render_base(69420, 8, false);
    let base16 = render_base(69420, 16, false);

    let one = render_u64(1);
    let right_aligned = pad_spaces(one.as_str(), 5);
    let one_again = render_u64(1);
    let zero_padded = pad_zeros(one_again.as_str(), 5);
    proof {
        assert(dec_repr(1).len() == 1);
    }
    (days, base10, base2, base8, base16, right_aligned, zero_padded)
}

/// A list displayed with the index of each element: `[0: 1, 1: 2,
/// 2: 3]`.
pub fn display() -> (r: String)
    ensures
        r@ == listing_chars(seq![1i64, 2i64, 3i64]),
        r@ == "[0: 1, 1: 2, 2: 3]"@,
{
    let v = vec![1i64, 2i64, 3i64];
    let listing = render_listing(&v);
    proof {
        reveal_strlit("[0: 1, 1: 2, 2: 3]");
        assert(v@ =~= seq![1i64, 2i64, 3i64]);
        lemma_small_listing();
        assert(listing@ =~= "[0: 1, 1: 2, 2: 3]"@);
    }
    listing
}

proof fn lemma_small_listing()
    ensures
        listing_chars(seq![1i64, 2i64, 3i64]) =~= seq![
            '[',
            '0',
            ':',
            ' ',
            '1',
            ',',
            ' ',
            '1',
            ':',
            ' ',
            '2',
            ',',
            ' ',
            '2',
            ':',
            ' ',
            '3',
            ']',
        ],
{
    let s = seq![1i64, 2i64, 3i64];
    assert(dec_repr(0) =~= seq!['0']);
    assert(dec_repr(1) =~= seq!['1']);
    assert(dec_repr(2) =~= seq!['2']);
    assert(dec_repr(3) =~= seq!['3']);
    assert(crate::formatting::entry_chars(s, 0) =~= seq!['0', ':', ' ', '1']);
    assert(crate::formatting::entry_chars(s, 1) =~= seq!['1', ':', ' ', '2']);
    assert(crate::formatting::entry_chars(s, 2) =~= seq!['2', ':', ' ', '3']);
    assert(crate::formatting::listing_body(s, 1) =~= seq!['0', ':', ' ', '1']);
    assert(crate::formatting::listing_body(s, 2) =~= seq![
        '0',
        ':',
        ' ',
        '1',
        ',',
        ' ',
        '1',
        ':',
        ' ',
        '2',
    ]);
}

/// Three colors rendered as six uppercase hex digits each; the first
/// one is proved character by character.
pub fn formatting() -> (r: (String, String, String))
    ensures
        r.0@ == rgb_hex_chars(128, 255, 90),
        r.0@ == "80FF5A"@,
        r.1@ == rgb_hex_chars(0, 3, 254),
        r.2@ == rgb_hex_chars(0, 0, 0),
{
    let first = rgb_hex(128, 255, 90);
    let second = rgb_hex(0, 3, 254);
    let third = rgb_hex(0, 0, 0);
    proof {
        reveal_strlit("80FF5A");
        assert(base_repr(8, 16, true) =~= seq!['8']);
        assert(base_repr(128, 16, true) =~= seq!['8', '0']);
        assert(base_repr(15, 16, true) =~= seq!['F']);
        assert(base_repr(255, 16, true) =~= seq!['F', 'F']);
        assert(base_repr(5, 16, true) =~= seq!['5']);
        assert(base_repr(90, 16, true) =~= seq!['5', 'A']);
        assert(crate::formatting::channel_hex(128) =~= seq!['8', '0']);
        assert(crate::formatting::channel_hex(255) =~= seq!['F', 'F']);
        assert(crate::formatting::channel_hex(90) =~= seq!['5', 'A']);
        assert(first@ =~= "80FF5A"@);
    }
    (first, second, third)
}

} // verus!
