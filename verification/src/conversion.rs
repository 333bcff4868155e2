//! Conversions between types: `From` and `Into`, fallible conversion
//! with `TryFrom` and `TryInto`, and converting to and from strings.

use crate::formatting::{dec_int_repr, dec_repr};
use vstd::prelude::*;
use vstd::string::StrSliceExecFns;
use vstd::string::StringExecFns;

verus! {

/// A wrapper around a number, built by conversion.
pub struct MyNumber {
    pub value: i32,
}

impl From<i32> for MyNumber {
    /// Wraps the number.
    fn from(item: i32) -> (r: MyNumber) {
        MyNumber { value: item }
    }
}

impl vstd::std_specs::convert::FromSpecImpl<i32> for MyNumber {
    open spec fn obeys_from_spec() -> bool {
        true
    }

    open spec fn from_spec(item: i32) -> MyNumber {
        MyNumber { value: item }
    }
}

/// `From` converts directly; `Into` is the same conversion seen from
/// the other side.
pub fn from_and_into() -> (r: (i32, i32))
    ensures
        r == (30i32, 5i32),
{
    let num_from = MyNumber::from(30);
    assert(num_from.value == 30);

    let five: i32 = 5;
    let num_to: MyNumber = five.into();
    assert(num_to.value == 5);
    (num_from.value, num_to.value)
}

/// A number that is provably even.
pub struct EvenNumber(pub i32);

impl TryFrom<i32> for EvenNumber {
    type Error = ();

    /// Accepts even numbers and rejects the rest.
    fn try_from(value: i32) -> (r: Result<EvenNumber, ()>) {
        if value % 2 == 0 {
            Ok(EvenNumber(value))
        } else {
            Err(())
        }
    }
}

impl vstd::std_specs::convert::TryFromSpecImpl<i32> for EvenNumber {
    open spec fn obeys_try_from_spec() -> bool {
        true
    }

    open spec fn try_from_spec(value: i32) -> Result<EvenNumber, ()> {
        if value % 2 == 0 {
            Ok(EvenNumber(value))
        } else {
            Err(())
        }
    }
}

impl PartialEq for EvenNumber {
    /// Two even numbers are equal when their values are.
    fn eq(&self, other: &Self) -> (r: bool) {
        self.0 == other.0
    }
}

impl vstd::std_specs::cmp::PartialEqSpecImpl for EvenNumber {
    open spec fn obeys_eq_spec() -> bool {
        true
    }

    open spec fn eq_spec(&self, other: &Self) -> bool {
        self.0 == other.0
    }
}

/// Eight converts to an even number; five is refused. `try_into` is the
/// same check driven from the integer.
pub fn try_from_and_try_into() -> (r: (bool, bool, bool, bool))
    ensures
        r == (true, true, true, true),
{
    let even = EvenNumber::try_from(8);
    let even_ok = match even {
        Ok(n) => n.0 == 8,
        Err(()) => false,
    };
    assert(even_ok);

    let odd = EvenNumber::try_from(5);
    let odd_rejected = match odd {
        Ok(_) => false,
        Err(()) => true,
    };
    assert(odd_rejected);

    let result: Result<EvenNumber, ()> = 8i32.try_into();
    let into_ok = match result {
        Ok(n) => n.0 == 8,
        Err(()) => false,
    };
    assert(into_ok);

    let result: Result<EvenNumber, ()> = 5i32.try_into();
    let into_rejected = match result {
        Ok(_) => false,
        Err(()) => true,
    };
    assert(into_rejected);

    (even_ok, odd_rejected, into_ok, into_rejected)
}

/// A circle that can describe itself as text.
pub struct Circle {
    pub radius: i32,
}

impl Circle {
    /// The circle's description, radius included.
    pub fn to_string(&self) -> (r: String)
        ensures
            r@ == "Circle of radius "@ + dec_int_repr(self.radius as int),
    {
        let mut r = String::from_str("Circle of radius ");
        let digits = crate::formatting::render_i64(self.radius as i64);
        r.append(digits.as_str());
        r
    }
}

/// Whether the character is a decimal digit.
pub open spec fn is_digit(c: char) -> bool {
    48 <= c as u32 <= 57
}

/// The numeric value of a digit character; anything else counts zero.
pub open spec fn digit_val(c: char) -> nat {
    if is_digit(c) {
        (c as u32 - 48) as nat
    } else {
        0
    }
}

/// Whether every character is a decimal digit.
pub open spec fn all_digits(s: Seq<char>) -> bool {
    forall|i: int| 0 <= i < s.len() ==> is_digit(#[trigger] s[i])
}

/// The number the digits spell, most significant first.
pub open spec fn digits_value(s: Seq<char>) -> nat
    decreases s.len(),
{
    if s.len() == 0 {
        0
    } else {
        digits_value(s.drop_last()) * 10 + digit_val(s.last())
    }
}

proof fn lemma_digits_value_grows(s: Seq<char>, i: int, j: int)
    requires
        0 <= i <= j <= s.len(),
    ensures
        digits_value(s.take(i)) <= digits_value(s.take(j)),
    decreases j - i,
{
    if i < j {
        lemma_digits_value_grows(s, i, j - 1);
        assert(s.take(j).drop_last() =~= s.take(j - 1));
    }
}

/// Reads an unsigned number from decimal text: the value when the text
/// is one or more digits spelling something that fits, nothing
/// otherwise.
pub fn parse_u32(s: &str) -> (r: Option<u32>)
    ensures
        match r {
            Some(v) => s@.len() > 0 && all_digits(s@) && v == digits_value(s@),
            None => s@.len() == 0 || !all_digits(s@) || digits_value(s@) > u32::MAX,
        },
{
    let n = s.unicode_len();
    if n == 0 {
        return None;
    }
    let mut acc: u64 = 0;
    let mut i: usize = 0;
    while i < n
        invariant
            n == s@.len(),
            0 < n,
            i <= n,
            all_digits(s@.take(i as int)),
            acc == digits_value(s@.take(i as int)),
            acc <= u32::MAX,
        decreases n - i,
    {
        let c = s.get_char(i);
        let cv = c as u32;
        if cv < 48 || cv > 57 {
            proof {
                assert(!is_digit(s@[i as int]));
            }
            return None;
        }
        let d: u64 = (cv - 48) as u64;
        let next: u64 = acc * 10 + d;
        proof {
            assert(s@.take(i as int + 1).drop_last() =~= s@.take(i as int));
            assert(s@.take(i as int + 1).last() == s@[i as int]);
            assert(next == digits_value(s@.take(i as int + 1)));
        }
        if next > 0xffff_ffff {
            proof {
                lemma_digits_value_grows(s@, i as int + 1, n as int);
                assert(s@.take(n as int) =~= s@);
            }
            return None;
        }
        acc = next;
        i += 1;
    }
    proof {
        assert(s@.take(n as int) =~= s@);
    }
    Some(acc as u32)
}

/// A circle turned into text, and two numbers read back from text and
/// summed.
pub fn to_and_from_strings() -> (r: (String, u32))
    ensures
        r.0@ == "Circle of radius 6"@,
        r.1 == 15,
{
    let circle = Circle { radius: 6 };
    let text = circle.to_string();
    proof {
        reveal_strlit("Circle of radius ");
        reveal_strlit("Circle of radius 6");
        assert(dec_repr(6) =~= seq!['6']);
        assert(text@ =~= "Circle of radius 6"@);
    }

    proof {
        reveal_strlit("5");
        reveal_strlit("10");
    }
    let parsed = parse_u32("5");
    let turbo_parsed = parse_u32("10");
    proof {
        assert(digits_value(Seq::<char>::empty()) == 0);
        assert(all_digits("5"@));
        assert("5"@.drop_last() =~= Seq::<char>::empty());
        assert("5"@.last() == '5');
        assert(digit_val('5') == 5);
        assert(digits_value("5"@) == 5);
        assert(all_digits("10"@));
        assert("10"@.drop_last() =~= seq!['1']);
        assert(seq!['1'].drop_last() =~= Seq::<char>::empty());
        assert(digits_value(seq!['1']) == 1);
        assert(digits_value("10"@) == 10);
    }
    let sum: u32 = match (parsed, turbo_parsed) {
        (Some(a), Some(b)) => a + b,
        _ => 0,
    };
    assert(sum == 15);
    (text, sum)
}

} // verus!
