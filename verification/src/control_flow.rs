//! Control flow: `if`/`else`, loops with `break` and `continue`, labels,
//! `for`, `match` with destructuring, guards and bindings, `if let`, and
//! `while let`.

use crate::formatting::{dec_repr, str_eq};
use vstd::prelude::*;
use vstd::string::StringExecFns;

verus! {

/// Signed halving as the machine does it: the quotient is rounded toward
/// zero.
pub open spec fn half_toward_zero(n: int) -> int {
    if n >= 0 {
        n / 2
    } else {
        -((-n) / 2)
    }
}

/// A small number is increased ten-fold; a big one is halved.
pub fn scale(n: i32) -> (big_n: i32)
    ensures
        big_n == if -10 < n < 10 { 10 * n } else { half_toward_zero(n as int) },
{
    if -10 < n && n < 10 { 10 * n } else { n / 2 }
}

/// An `if`/`else` chain is an expression; here it picks the scaled value.
pub fn if_else() -> (r: i32)
    ensures
        r == 50,
{
    let n: i32 = 5;
    let big_n = scale(n);
    big_n
}

/// Counts up in an endless `loop`, skipping once with `continue` and
/// leaving with `break`.
pub fn loop_and_break() -> (count: u32)
    ensures
        count == 5,
{
    let mut count: u32 = 0;
    loop
        invariant_except_break
            count < 5,
        ensures
            count == 5,
        decreases 5 - count,
    {
        count += 1;
        if count == 3 {
            continue;
        }
        if count == 5 {
            break;
        }
    }
    count
}

/// A labelled `break` leaves the outer loop from inside the inner one,
/// so each loop runs exactly once.
pub fn nesting_and_labels() -> (entries: (u32, u32))
    ensures
        entries == (1u32, 1u32),
{
    let mut outer_entries: u32 = 0;
    let mut inner_entries: u32 = 0;
    'outer: loop
        invariant_except_break
            outer_entries == 0,
            inner_entries == 0,
        ensures
            outer_entries == 1 && inner_entries == 1,
        decreases 1 - outer_entries,
    {
        outer_entries += 1;
        loop
            invariant_except_break
                outer_entries == 1,
                inner_entries == 0,
            ensures
                outer_entries == 1 && inner_entries == 1,
            decreases 1 - inner_entries,
        {
            inner_entries += 1;
            break 'outer;
        }
    }
    (outer_entries, inner_entries)
}

/// `break` can carry a value out of a `loop`.
pub fn returning_from_loops() -> (result: i32)
    ensures
        result == 20,
{
    let mut counter: i32 = 0;
    let mut result: i32 = 0;
    loop
        invariant_except_break
            0 <= counter < 10,
        ensures
            result == 20,
        decreases 10 - counter,
    {
        counter += 1;
        if counter == 10 {
            result = counter * 2;
            break;
        }
    }
    result
}

/// The line the fizzbuzz game speaks for one number.
pub open spec fn fizzbuzz_chars(n: nat) -> Seq<char> {
    if n % 15 == 0 {
        "fizzbuzz"@
    } else if n % 3 == 0 {
        "fizz"@
    } else if n % 5 == 0 {
        "buzz"@
    } else {
        dec_repr(n)
    }
}

/// Speaks the fizzbuzz line for one number.
pub fn fizzbuzz_line(n: u32) -> (r: String)
    ensures
        r@ == fizzbuzz_chars(n as nat),
{
    if n % 15 == 0 {
        String::from_str("fizzbuzz")
    } else if n % 3 == 0 {
        String::from_str("fizz")
    } else if n % 5 == 0 {
        String::from_str("buzz")
    } else {
        crate::formatting::render_u64(n as u64)
    }
}

/// The fizzbuzz lines for `1..=n`, one per number.
pub fn fizzbuzz_upto(n: u32) -> (r: Vec<String>)
    ensures
        r@.len() == n,
        forall|i: int| 0 <= i < n ==> #[trigger] r@[i]@ == fizzbuzz_chars((i + 1) as nat),
{
    let mut r: Vec<String> = Vec::new();
    let mut k: u32 = 0;
    while k < n
        invariant
            k <= n,
            r@.len() == k,
            forall|i: int| 0 <= i < k ==> #[trigger] r@[i]@ == fizzbuzz_chars((i + 1) as nat),
        decreases n - k,
    {
        k += 1;
        let line = fizzbuzz_line(k);
        r.push(line);
    }
    r
}

/// A `while` loop plays fizzbuzz below 16.
pub fn while_loops() -> (r: Vec<String>)
    ensures
        r@.len() == 15,
        forall|i: int| 0 <= i < 15 ==> #[trigger] r@[i]@ == fizzbuzz_chars((i + 1) as nat),
{
    fizzbuzz_upto(15)
}

/// A `for` loop plays fizzbuzz up to 100.
pub fn for_loops() -> (r: Vec<String>)
    ensures
        r@.len() == 100,
        forall|i: int| 0 <= i < 100 ==> #[trigger] r@[i]@ == fizzbuzz_chars((i + 1) as nat),
{
    fizzbuzz_upto(100)
}

/// The greeting spoken to one name while walking the guest list.
pub open spec fn greeting_chars(name: Seq<char>) -> Seq<char> {
    if name == "Ferris"@ {
        "There is a rustacean among us!"@
    } else {
        "Hello "@ + name
    }
}

/// Greets one name, with a special line for Ferris.
pub fn greeting_line(name: &str) -> (r: String)
    requires
        name.is_ascii(),
    ensures
        r@ == greeting_chars(name@),
{
    proof {
        reveal_strlit("Ferris");
        assert("Ferris".is_ascii());
    }
    if str_eq(name, "Ferris") {
        String::from_str("There is a rustacean among us!")
    } else {
        let mut r = String::from_str("Hello ");
        r.append(name);
        proof {
            assert(r@ =~= greeting_chars(name@));
        }
        r
    }
}

/// Rewrites every name in place: Ferris is called out, everyone else
/// becomes a plain `Hello`.
pub fn rewrite_names(names: &mut Vec<&'static str>)
    requires
        forall|i: int| 0 <= i < old(names)@.len() ==> #[trigger] old(names)@[i].is_ascii(),
    ensures
        final(names)@.len() == old(names)@.len(),
        forall|i: int|
            0 <= i < old(names)@.len() ==> #[trigger] final(names)@[i]@ == (if old(
                names,
            )@[i]@ == "Ferris"@ {
                "There is a rustacean among us!"@
            } else {
                "Hello"@
            }),
{
    proof {
        reveal_strlit("Ferris");
        assert("Ferris".is_ascii());
    }
    let n = names.len();
    let mut i: usize = 0;
    while i < n
        invariant
            n == names@.len() == old(names)@.len(),
            i <= n,
            forall|j: int| i <= j < n ==> #[trigger] names@[j] == old(names)@[j],
            forall|j: int| 0 <= j < n ==> #[trigger] old(names)@[j].is_ascii(),
            forall|j: int|
                0 <= j < i ==> #[trigger] names@[j]@ == (if old(names)@[j]@ == "Ferris"@ {
                    "There is a rustacean among us!"@
                } else {
                    "Hello"@
                }),
        decreases n - i,
    {
        let name = names[i];
        proof {
            reveal_strlit("Ferris");
            assert("Ferris".is_ascii());
            assert(names@[i as int] == old(names)@[i as int]);
        }
        if str_eq(name, "Ferris") {
            names.set(i, "There is a rustacean among us!");
        } else {
            names.set(i, "Hello");
        }
        i = i + 1;
    }
}

/// What `match` says about one number: the arms are tried in order, so
/// 11 and 13 count as primes before the teen range is reached.
pub fn classify(number: i32) -> (r: &'static str)
    ensures
        r@ == if number == 1 {
            "One!"@
        } else if number == 2 || number == 3 || number == 5 || number == 7 || number == 11
            || number == 13 {
            "This is a prime"@
        } else if 10 <= number <= 19 {
            "A teen"@
        } else {
            "Ain't special"@
        },
{
    match number {
        1 => "One!",
        2 | 3 | 5 | 7 | 11 | 13 => "This is a prime",
        10..=19 => "A teen",
        _ => "Ain't special",
    }
}

/// `match` turns a boolean into a binary digit.
pub fn boolean_to_binary(boolean: bool) -> (r: i32)
    ensures
        r == if boolean { 1int } else { 0int },
{
    match boolean {
        false => 0,
        true => 1,
    }
}

/// The arm a three-element tuple falls into, with its bindings.
pub enum TripleMatch {
    /// The first element is zero; the other two are carried along.
    FirstZero { y: i32, z: i32 },
    /// The first element is one and the rest does not matter.
    FirstOne,
    /// Any other tuple.
    Other,
}

/// Destructures a tuple the way the arms are written: first element
/// zero, first element one, then everything else.
pub fn triple_match(triple: (i32, i32, i32)) -> (r: TripleMatch)
    ensures
        r == if triple.0 == 0 {
            TripleMatch::FirstZero { y: triple.1, z: triple.2 }
        } else if triple.0 == 1 {
            TripleMatch::FirstOne
        } else {
            TripleMatch::Other
        },
{
    match triple {
        (0, y, z) => TripleMatch::FirstZero { y, z },
        (1, _, _) => TripleMatch::FirstOne,
        _ => TripleMatch::Other,
    }
}

/// The arm a three-element array falls into, keyed by its first element,
/// with the bindings each pattern keeps.
pub enum ArrayMatch {
    /// `[0, second, third]`.
    FirstZero { second: i32, third: i32 },
    /// `[1, _, third]`: the middle element is ignored.
    FirstOne { third: i32 },
    /// `[2, second, ..]`: everything after the second is ignored.
    FirstTwo { second: i32 },
    /// `[3, second, tail @ ..]`: the rest is kept as a tail.
    FirstThree { second: i32, tail: i32 },
    /// `[first, middle @ .., last]`: first and last, middle kept.
    General { first: i32, middle: i32, last: i32 },
}

/// Destructures an array of three numbers arm by arm.
pub fn array_match(array: [i32; 3]) -> (r: ArrayMatch)
    ensures
        r == if array[0] == 0 {
            ArrayMatch::FirstZero { second: array[1], third: array[2] }
        } else if array[0] == 1 {
            ArrayMatch::FirstOne { third: array[2] }
        } else if array[0] == 2 {
            ArrayMatch::FirstTwo { second: array[1] }
        } else if array[0] == 3 {
            ArrayMatch::FirstThree { second: array[1], tail: array[2] }
        } else {
            ArrayMatch::General { first: array[0], middle: array[1], last: array[2] }
        },
{
    let first = array[0];
    let second = array[1];
    let third = array[2];
    if first == 0 {
        ArrayMatch::FirstZero { second, third }
    } else if first == 1 {
        ArrayMatch::FirstOne { third }
    } else if first == 2 {
        ArrayMatch::FirstTwo { second }
    } else if first == 3 {
        ArrayMatch::FirstThree { second, tail: third }
    } else {
        ArrayMatch::General { first, middle: second, last: third }
    }
}

/// A color, either named or given by channels in one of several models.
pub enum Shade {
    Red,
    Blue,
    Green,
    RGB(u32, u32, u32),
    HSV(u32, u32, u32),
    HSL(u32, u32, u32),
    CMY(u32, u32, u32),
    CMYK(u32, u32, u32, u32),
}

/// Adds ten through a mutable binding obtained with `ref mut`.
pub fn add_ten(value: &mut i32)
    requires
        *old(value) <= i32::MAX - 10,
    ensures
        *final(value) == *old(value) + 10,
{
    *value += 10;
}

/// A struct whose first field is itself a tuple.
pub struct Grid {
    pub x: (u32, u32),
    pub y: u32,
}

/// The arm a [`Grid`] falls into.
pub enum GridMatch {
    /// `x` starts with one; its second half and `y` are kept.
    XStartsOne { b: u32, y: u32 },
    /// `y` is two; all of `x` is kept.
    YTwo { i: (u32, u32) },
    /// Everything else; only `y` is looked at.
    Other { y: u32 },
}

/// Destructures a struct, including the tuple inside it, arm by arm.
pub fn grid_match(grid: Grid) -> (r: GridMatch)
    ensures
        r == if grid.x.0 == 1 {
            GridMatch::XStartsOne { b: grid.x.1, y: grid.y }
        } else if grid.y == 2 {
            GridMatch::YTwo { i: grid.x }
        } else {
            GridMatch::Other { y: grid.y }
        },
{
    match grid {
        Grid { x: (1, b), y } => GridMatch::XStartsOne { b, y },
        Grid { y: 2, x: i } => GridMatch::YTwo { i },
        Grid { y, .. } => GridMatch::Other { y },
    }
}

/// Runs every destructuring shape on the lesson's values and proves
/// which arm each one takes.
pub fn match_destructuring() -> (r: (i32, i32))
    ensures
        r == (1i32, 13i32),
{
    let triple = triple_match((0, -2, 3));
    assert(triple == TripleMatch::FirstZero { y: -2i32, z: 3i32 });

    let array = array_match([-1, 2, -3]);
    assert(array == ArrayMatch::General { first: -1i32, middle: 2i32, last: -3i32 });

    let color = Shade::RGB(122, 17, 40);
    match color {
        Shade::RGB(red, green, blue) => {
            assert(red == 122 && green == 17 && blue == 40);
        },
        _ => {
            assert(false);
        },
    }

    let reference: &i32 = &1;
    let destructured: i32 = *reference;

    let mut mut_value: i32 = 3;
    add_ten(&mut mut_value);
    assert(mut_value == 13);

    let grid = grid_match(Grid { x: (0, 1), y: 2 });
    assert(grid == GridMatch::YTwo { i: (0u32, 1u32) });

    (destructured, mut_value)
}

/// The arm a pair falls into under guards, in the order the guards are
/// written: equal halves, halves that cancel, an odd first half (odd in
/// the machine's sense, so only for a positive first half), or nothing.
pub enum PairKind {
    Twins,
    Antimatter,
    FirstOdd,
    NoCorrelation,
}

/// Applies the guards in order. The sum is taken in a wider type, as the
/// mathematical reading of the guard demands.
pub fn pair_kind(pair: (i32, i32)) -> (r: PairKind)
    ensures
        r == if pair.0 == pair.1 {
            PairKind::Twins
        } else if pair.0 + pair.1 == 0 {
            PairKind::Antimatter
        } else if pair.0 > 0 && pair.0 % 2 == 1 {
            PairKind::FirstOdd
        } else {
            PairKind::NoCorrelation
        },
{
    match pair {
        (x, y) if x == y => PairKind::Twins,
        (x, y) if x as i64 + y as i64 == 0 => PairKind::Antimatter,
        (x, _) if x > 0 && x % 2 == 1 => PairKind::FirstOdd,
        _ => PairKind::NoCorrelation,
    }
}

/// Guards on an unsigned number: zero or greater than zero; the last arm
/// only convinces the compiler that the match is complete.
pub fn unsigned_kind(number: u8) -> (r: &'static str)
    ensures
        r@ == if number == 0 {
            "Zero"@
        } else {
            "Greater than zero"@
        },
{
    match number {
        i if i == 0 => "Zero",
        i if i > 0 => "Greater than zero",
        _ => "Fell through",
    }
}

/// Checks the guard arms on the lesson's values.
pub fn match_guards() -> (r: (PairKind, PairKind, PairKind, PairKind))
    ensures
        r.0 == PairKind::Antimatter,
        r.1 == PairKind::Twins,
        r.2 == PairKind::FirstOdd,
        r.3 == PairKind::NoCorrelation,
{
    let a = pair_kind((2, -2));
    let b = pair_kind((3, 3));
    let c = pair_kind((5, 1));
    let d = pair_kind((-4, 1));
    (a, b, c, d)
}

/// An age sorted into a bracket, the matched number bound with `@`.
pub enum AgeBracket {
    /// No birthday celebrated yet.
    Baby,
    /// Ages one through twelve.
    Child(u32),
    /// Ages thirteen through nineteen.
    Teen(u32),
    /// Everyone older.
    Old(u32),
}

/// Sorts an age into its bracket, keeping the bound value.
pub fn age_bracket(age: u32) -> (r: AgeBracket)
    ensures
        r == if age == 0 {
            AgeBracket::Baby
        } else if 1 <= age <= 12 {
            AgeBracket::Child(age)
        } else if 13 <= age <= 19 {
            AgeBracket::Teen(age)
        } else {
            AgeBracket::Old(age)
        },
{
    match age {
        0 => AgeBracket::Baby,
        n @ 1..=12 => AgeBracket::Child(n),
        n @ 13..=19 => AgeBracket::Teen(n),
        n => AgeBracket::Old(n),
    }
}

/// What a maybe-number turns out to be: the answer, something else, or
/// nothing at all.
pub enum AnswerKind {
    TheAnswer,
    NotInteresting(u32),
    Nothing,
}

/// Binds against the one interesting value, 42.
pub fn answer_kind(number: Option<u32>) -> (r: AnswerKind)
    ensures
        r == match number {
            Some(n) => if n == 42 {
                AnswerKind::TheAnswer
            } else {
                AnswerKind::NotInteresting(n)
            },
            None => AnswerKind::Nothing,
        },
{
    match number {
        Some(n) if n == 42 => AnswerKind::TheAnswer,
        Some(n) => AnswerKind::NotInteresting(n),
        _ => AnswerKind::Nothing,
    }
}

/// Binding with `@` on the lesson's values: nineteen is a teen, and 42
/// is the answer.
pub fn match_binding() -> (r: (AgeBracket, AnswerKind))
    ensures
        r.0 == AgeBracket::Teen(19),
        r.1 == AnswerKind::TheAnswer,
{
    let bracket = age_bracket(19);
    let answer = answer_kind(Some(42));
    (bracket, answer)
}

/// A little enum without any comparison of its own; `if let` can still
/// pick a variant apart.
pub enum FooEnum {
    Bar,
    Qux(u32),
}

/// `if let` walks three maybe-numbers and two enum values; the proof
/// pins which branch each one takes.
pub fn if_let() -> (r: (bool, bool, bool, bool, bool))
    ensures
        r == (true, false, false, true, true),
{
    let number: Option<i32> = Some(7);
    let mut matched_number = false;
    if let Some(i) = number {
        assert(i == 7);
        matched_number = true;
    }

    let letter: Option<i32> = None;
    let mut matched_letter = false;
    if let Some(_i) = letter {
        matched_letter = true;
    }

    let emoticon: Option<i32> = None;
    let i_like_letters = false;
    let mut emoticon_matched = false;
    if let Some(_i) = emoticon {
        emoticon_matched = true;
    } else if i_like_letters {
        emoticon_matched = true;
    }

    let a = FooEnum::Bar;
    let mut a_is_foobar = false;
    if let FooEnum::Bar = a {
        a_is_foobar = true;
    }

    let b = FooEnum::Qux(100);
    let mut b_is_one_hundred = false;
    if let FooEnum::Qux(value) = b {
        assert(value == 100);
        if value == 100 {
            b_is_one_hundred = true;
        }
    }

    (matched_number, matched_letter, emoticon_matched, a_is_foobar, b_is_one_hundred)
}

/// A loop keeps unwrapping a maybe-number until the body stops
/// producing one; starting at zero it runs seven times.
pub fn while_let() -> (tries: u32)
    ensures
        tries == 7,
{
    let mut optional: Option<u32> = Some(0);
    let mut tries: u32 = 0;
    loop
        invariant_except_break
            tries <= 7,
            optional == if tries < 7 {
                Some(tries)
            } else {
                Option::<u32>::None
            },
        ensures
            tries == 7,
        decreases 8 - tries,
    {
        match optional {
            Some(i) => {
                if i > 5 {
                    optional = None;
                } else {
                    optional = Some(i + 1);
                }
                tries += 1;
            },
            None => {
                break;
            },
        }
    }
    tries
}

} // verus!
