//! Rendering integers as text: decimal, binary, octal and hexadecimal
//! digits, padding, and a bracketed listing of a vector.
//!
//! A printed demonstration of `69420` in four bases is checked by eye;
//! here the renderer carries a contract instead, and the expected
//! strings become proved or tested facts.

use vstd::arithmetic::div_mod::lemma_div_decreases;
use vstd::prelude::*;
use vstd::string::is_ascii_spec_bytes;
use vstd::string::StringExecFns;
use vstd::string::StringSliceAdditionalSpecFns;

verus! {

/// The character for one digit value, `0..=15`, in the requested case.
pub open spec fn digit_char(d: nat, upper: bool) -> char {
    if d == 0 {
        '0'
    } else if d == 1 {
        '1'
    } else if d == 2 {
        '2'
    } else if d == 3 {
        '3'
    } else if d == 4 {
        '4'
    } else if d == 5 {
        '5'
    } else if d == 6 {
        '6'
    } else if d == 7 {
        '7'
    } else if d == 8 {
        '8'
    } else if d == 9 {
        '9'
    } else if d == 10 {
        if upper { 'A' } else { 'a' }
    } else if d == 11 {
        if upper { 'B' } else { 'b' }
    } else if d == 12 {
        if upper { 'C' } else { 'c' }
    } else if d == 13 {
        if upper { 'D' } else { 'd' }
    } else if d == 14 {
        if upper { 'E' } else { 'e' }
    } else {
        if upper { 'F' } else { 'f' }
    }
}

/// The digits of `n` in the given base, most significant first, with no
/// leading zeros except for `n == 0`, which is the single digit `0`.
pub open spec fn base_repr(n: nat, base: nat, upper: bool) -> Seq<char>
    recommends
        2 <= base,
    decreases n,
    when 2 <= base
    via base_repr_decreases
{
    if n < base {
        seq![digit_char(n, upper)]
    } else {
        base_repr(n / base, base, upper).push(digit_char(n % base, upper))
    }
}

#[via_fn]
proof fn base_repr_decreases(n: nat, base: nat, upper: bool) {
    if n >= base {
        lemma_div_decreases(n as int, base as int);
    }
}

/// Decimal digits of a natural number.
pub open spec fn dec_repr(n: nat) -> Seq<char> {
    base_repr(n, 10, false)
}

/// Decimal text of an integer: a leading `-` for a negative value.
pub open spec fn dec_int_repr(n: int) -> Seq<char> {
    if n < 0 {
        seq!['-'] + dec_repr((-n) as nat)
    } else {
        dec_repr(n as nat)
    }
}

/// A one-character string for a digit value.
fn digit_str(d: u64, upper: bool) -> (r: &'static str)
    requires
        d < 16,
    ensures
        r@ == seq![digit_char(d as nat, upper)],
        r@.len() == 1,
{
    proof {
        reveal_strlit("0");
        reveal_strlit("1");
        reveal_strlit("2");
        reveal_strlit("3");
        reveal_strlit("4");
        reveal_strlit("5");
        reveal_strlit("6");
        reveal_strlit("7");
        reveal_strlit("8");
        reveal_strlit("9");
        reveal_strlit("a");
        reveal_strlit("b");
        reveal_strlit("c");
        reveal_strlit("d");
        reveal_strlit("e");
        reveal_strlit("f");
        reveal_strlit("A");
        reveal_strlit("B");
        reveal_strlit("C");
        reveal_strlit("D");
        reveal_strlit("E");
        reveal_strlit("F");
    }
    let r: &'static str = if d == 0 {
        "0"
    } else if d == 1 {
        "1"
    } else if d == 2 {
        "2"
    } else if d == 3 {
        "3"
    } else if d == 4 {
        "4"
    } else if d == 5 {
        "5"
    } else if d == 6 {
        "6"
    } else if d == 7 {
        "7"
    } else if d == 8 {
        "8"
    } else if d == 9 {
        "9"
    } else if d == 10 {
        if upper { "A" } else { "a" }
    } else if d == 11 {
        if upper { "B" } else { "b" }
    } else if d == 12 {
        if upper { "C" } else { "c" }
    } else if d == 13 {
        if upper { "D" } else { "d" }
    } else if d == 14 {
        if upper { "E" } else { "e" }
    } else {
        if upper { "F" } else { "f" }
    };
    proof {
        assert(r@ =~= seq![digit_char(d as nat, upper)]);
    }
    r
}

/// Renders `n` in the given base, most significant digit first.
pub fn render_base(n: u64, base: u64, upper: bool) -> (r: String)
    requires
        2 <= base <= 16,
    ensures
        r@ == base_repr(n as nat, base as nat, upper),
    decreases n,
{
    let d: u64 = n % base;
    let ds: &'static str = digit_str(d, upper);
    if n < base {
        let r = String::from_str(ds);
        proof {
            vstd::arithmetic::div_mod::lemma_small_mod(n as nat, base as nat);
            assert(r@ =~= base_repr(n as nat, base as nat, upper));
        }
        r
    } else {
        proof {
            lemma_div_decreases(n as int, base as int);
        }
        let rest = render_base(n / base, base, upper);
        let r = rest.concat(ds);
        proof {
            assert(r@ =~= base_repr(n as nat, base as nat, upper));
        }
        r
    }
}

/// Decimal text of an unsigned number.
pub fn render_u64(n: u64) -> (r: String)
    ensures
        r@ == dec_repr(n as nat),
{
    render_base(n, 10, false)
}

/// Decimal text of a signed number, with a leading `-` when negative.
pub fn render_i64(n: i64) -> (r: String)
    ensures
        r@ == dec_int_repr(n as int),
{
    proof {
        reveal_strlit("-");
    }
    if n < 0 {
        let mut r = String::from_str("-");
        let mag: u64 = (-(n + 1)) as u64 + 1;
        let digits = render_base(mag, 10, false);
        r.append(digits.as_str());
        proof {
            assert(r@ =~= dec_int_repr(n as int));
        }
        r
    } else {
        let r = render_base(n as u64, 10, false);
        proof {
            assert(r@ =~= dec_int_repr(n as int));
        }
        r
    }
}

/// `width - len` copies of the fill character, or none when the text
/// already fills the width.
pub open spec fn fill_chars(len: nat, width: nat, fill: char) -> Seq<char> {
    if len < width {
        Seq::new((width - len) as nat, |i: int| fill)
    } else {
        Seq::empty()
    }
}

/// Left-pads `s` with zeros up to `width` characters, as `{:0>width$}`
/// renders a number.
pub fn pad_zeros(s: &str, width: usize) -> (r: String)
    ensures
        r@ == fill_chars(s@.len(), width as nat, '0') + s@,
{
    proof {
        reveal_strlit("0");
    }
    pad_with(s, width, "0")
}

/// Right-aligns `s` in `width` columns with spaces, as `{:>width$}` does.
pub fn pad_spaces(s: &str, width: usize) -> (r: String)
    ensures
        r@ == fill_chars(s@.len(), width as nat, ' ') + s@,
{
    proof {
        reveal_strlit(" ");
    }
    pad_with(s, width, " ")
}

fn pad_with(s: &str, width: usize, fill: &str) -> (r: String)
    requires
        fill@.len() == 1,
    ensures
        r@ == fill_chars(s@.len(), width as nat, fill@[0]) + s@,
{
    let len: usize = s.unicode_len();
    let mut r = String::new();
    if len < width {
        let pad: usize = width - len;
        let mut i: usize = 0;
        while i < pad
            invariant
                i <= pad,
                fill@.len() == 1,
                r@ =~= Seq::new(i as nat, |j: int| fill@[0]),
            decreases pad - i,
        {
            r.append(fill);
            i = i + 1;
        }
    }
    r.append(s);
    proof {
        assert(r@ =~= fill_chars(s@.len(), width as nat, fill@[0]) + s@);
    }
    r
}

/// Whether two ASCII strings hold the same text, decided byte by byte.
pub fn str_eq(a: &str, b: &str) -> (r: bool)
    requires
        a.is_ascii(),
        b.is_ascii(),
    ensures
        r <==> a@ == b@,
{
    proof {
        broadcast use is_ascii_spec_bytes;

    }
    let ab = a.as_bytes();
    let bb = b.as_bytes();
    if ab.len() != bb.len() {
        proof {
            assert(a@ != b@);
        }
        return false;
    }
    let n = ab.len();
    let mut i: usize = 0;
    while i < n
        invariant
            n == ab@.len() == bb@.len(),
            i <= n,
            ab@ == a.spec_bytes(),
            bb@ == b.spec_bytes(),
            a.is_ascii(),
            b.is_ascii(),
            a@.len() == b@.len() == n,
            forall|j: int| 0 <= j < i ==> a@[j] == b@[j],
        decreases n - i,
    {
        if ab[i] != bb[i] {
            proof {
                assert(a@[i as int] as u8 != b@[i as int] as u8);
                assert(a@ != b@);
            }
            return false;
        }
        proof {
            assert(a@[i as int] as u8 == b@[i as int] as u8);
            assert('\0' <= a@[i as int] <= '\u{7f}');
            assert('\0' <= b@[i as int] <= '\u{7f}');
            assert(a@[i as int] == b@[i as int]);
        }
        i = i + 1;
    }
    proof {
        assert(a@ =~= b@);
    }
    true
}

/// The six uppercase hex digits of a color, two per channel, as the
/// `0x{:0>2X}{:0>2X}{:0>2X}` tail of an RGB line renders them.
pub open spec fn rgb_hex_chars(red: nat, green: nat, blue: nat) -> Seq<char> {
    channel_hex(red) + channel_hex(green) + channel_hex(blue)
}

/// One channel as exactly two uppercase hex digits.
pub open spec fn channel_hex(v: nat) -> Seq<char> {
    fill_chars(base_repr(v, 16, true).len(), 2, '0') + base_repr(v, 16, true)
}

/// The hex code of an RGB color, six uppercase digits.
pub fn rgb_hex(red: u8, green: u8, blue: u8) -> (r: String)
    ensures
        r@ == rgb_hex_chars(red as nat, green as nat, blue as nat),
{
    let mut r = channel_hex_str(red);
    let g = channel_hex_str(green);
    let b = channel_hex_str(blue);
    r.append(g.as_str());
    r.append(b.as_str());
    proof {
        assert(r@ =~= rgb_hex_chars(red as nat, green as nat, blue as nat));
    }
    r
}

fn channel_hex_str(v: u8) -> (r: String)
    ensures
        r@ == channel_hex(v as nat),
{
    let digits = render_base(v as u64, 16, true);
    let r = pad_zeros(digits.as_str(), 2);
    r
}

/// The display form of a vector, each element prefixed by its index:
/// `[0: 1, 1: 2, 2: 3]`.
pub open spec fn listing_chars(s: Seq<i64>) -> Seq<char> {
    seq!['['] + listing_body(s, s.len() as int) + seq![']']
}

/// The first `k` entries of the listing body, comma-separated.
pub open spec fn listing_body(s: Seq<i64>, k: int) -> Seq<char>
    decreases k,
{
    if k <= 0 {
        Seq::empty()
    } else if k == 1 {
        entry_chars(s, 0)
    } else {
        listing_body(s, k - 1) + seq![','] + seq![' '] + entry_chars(s, k - 1)
    }
}

/// One entry of the listing: `index: value`.
pub open spec fn entry_chars(s: Seq<i64>, i: int) -> Seq<char> {
    dec_int_repr(i) + seq![':'] + seq![' '] + dec_int_repr(s[i] as int)
}

/// Renders a vector the way the indexed list display writes it.
pub fn render_listing(v: &Vec<i64>) -> (r: String)
    requires
        v@.len() <= i64::MAX,
    ensures
        r@ == listing_chars(v@),
{
    proof {
        reveal_strlit("[");
        reveal_strlit("]");
        reveal_strlit(", ");
        reveal_strlit(": ");
    }
    let mut r = String::from_str("[");
    let mut i: usize = 0;
    while i < v.len()
        invariant
            i <= v@.len(),
            v@.len() <= i64::MAX,
            r@ =~= seq!['['] + listing_body(v@, i as int),
            ", "@ =~= seq![','] + seq![' '],
            ": "@ =~= seq![':'] + seq![' '],
            "["@ =~= seq!['['],
            "]"@ =~= seq![']'],
        decreases v@.len() - i,
    {
        if i != 0 {
            r.append(", ");
        }
        let idx = render_i64(i as i64);
        r.append(idx.as_str());
        r.append(": ");
        let val = render_i64(v[i]);
        r.append(val.as_str());
        proof {
            assert(entry_chars(v@, i as int) =~= dec_int_repr(i as int) + seq![':'] + seq![' ']
                + dec_int_repr(v@[i as int] as int));
            assert(r@ =~= seq!['['] + listing_body(v@, i as int + 1));
        }
        i = i + 1;
    }
    r.append("]");
    proof {
        assert(r@ =~= listing_chars(v@));
    }
    r
}

} // verus!
