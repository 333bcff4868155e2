//! Functions, associated functions and methods, and closures: passing
//! them in, reasoning about their contracts, and summing with them.

use crate::control_flow::fizzbuzz_chars;
use vstd::prelude::*;
use vstd::string::StringExecFns;

pub mod output_params;

verus! {

/// Whether `lhs` divides evenly by `rhs`; division by zero is simply
/// answered with `false` instead of a panic.
pub fn is_divisible_by(lhs: u32, rhs: u32) -> (r: bool)
    ensures
        r == (rhs != 0 && lhs % rhs == 0),
{
    if rhs == 0 {
        return false;
    }
    lhs % rhs == 0
}

/// The fizzbuzz line for one number, decided by divisibility tests.
pub fn fizzbuzz(n: u32) -> (r: String)
    ensures
        r@ == fizzbuzz_chars(n as nat),
{
    if is_divisible_by(n, 15) {
        String::from_str("fizzbuzz")
    } else if is_divisible_by(n, 3) {
        String::from_str("fizz")
    } else if is_divisible_by(n, 5) {
        String::from_str("buzz")
    } else {
        crate::formatting::render_u64(n as u64)
    }
}

/// The fizzbuzz lines for `1..=n`.
pub fn fizzbuzz_to(n: u32) -> (r: Vec<String>)
    ensures
        r@.len() == n,
        forall|i: int| 0 <= i < n ==> #[trigger] r@[i]@ == fizzbuzz_chars((i + 1) as nat),
{
    let mut r: Vec<String> = Vec::new();
    let mut k: u32 = 0;
    while k < n
        invariant
            k <= n,
            r@.len() == k,
            forall|i: int| 0 <= i < k ==> #[trigger] r@[i]@ == fizzbuzz_chars((i + 1) as nat),
        decreases n - k,
    {
        k += 1;
        let line = fizzbuzz(k);
        r.push(line);
    }
    r
}

/// The magnitude of an integer.
pub open spec fn abs_int(a: int) -> int {
    if a >= 0 {
        a
    } else {
        -a
    }
}

/// A point on the plane.
pub struct Point {
    pub x: i64,
    pub y: i64,
}

impl Point {
    /// The origin, an associated function used like a constructor.
    pub fn origin() -> (r: Point)
        ensures
            r.x == 0 && r.y == 0,
    {
        Point { x: 0, y: 0 }
    }

    /// A point from its coordinates.
    pub fn new(x: i64, y: i64) -> (r: Point)
        ensures
            r.x == x && r.y == y,
    {
        Point { x, y }
    }
}

/// A rectangle spanned by two corner points.
pub struct Rectangle {
    pub p1: Point,
    pub p2: Point,
}

impl Rectangle {
    /// The spanned width times the spanned height, whatever the order of
    /// the corners.
    pub fn area(&self) -> (r: i64)
        requires
            i64::MIN <= self.p1.x - self.p2.x <= i64::MAX,
            i64::MIN <= self.p1.y - self.p2.y <= i64::MAX,
            -i64::MAX <= (self.p1.x - self.p2.x) * (self.p1.y - self.p2.y) <= i64::MAX,
        ensures
            r == abs_int((self.p1.x - self.p2.x) * (self.p1.y - self.p2.y)),
    {
        let dx = self.p1.x - self.p2.x;
        let dy = self.p1.y - self.p2.y;
        let product = dx * dy;
        if product >= 0 {
            product
        } else {
            -product
        }
    }

    /// Twice the sum of the two side lengths.
    pub fn perimeter(&self) -> (r: i64)
        requires
            i64::MIN <= self.p1.x - self.p2.x <= i64::MAX,
            i64::MIN <= self.p1.y - self.p2.y <= i64::MAX,
            2 * (abs_int(self.p1.x - self.p2.x) + abs_int(self.p1.y - self.p2.y)) <= i64::MAX,
        ensures
            r == 2 * (abs_int(self.p1.x - self.p2.x) + abs_int(self.p1.y - self.p2.y)),
    {
        let dx = self.p1.x - self.p2.x;
        let dy = self.p1.y - self.p2.y;
        let w = if dx >= 0 { dx } else { -dx };
        let h = if dy >= 0 { dy } else { -dy };
        2 * (w + h)
    }

    /// Moves both corners by the given offsets.
    pub fn translate(&mut self, x: i64, y: i64)
        requires
            i64::MIN <= old(self).p1.x + x <= i64::MAX,
            i64::MIN <= old(self).p1.y + y <= i64::MAX,
            i64::MIN <= old(self).p2.x + x <= i64::MAX,
            i64::MIN <= old(self).p2.y + y <= i64::MAX,
        ensures
            final(self).p1.x == old(self).p1.x + x,
            final(self).p1.y == old(self).p1.y + y,
            final(self).p2.x == old(self).p2.x + x,
            final(self).p2.y == old(self).p2.y + y,
    {
        self.p1.x += x;
        self.p1.y += y;
        self.p2.x += x;
        self.p2.y += y;
    }
}

/// Two heap-allocated numbers owned together.
pub struct Pair(pub Box<i32>, pub Box<i32>);

impl Pair {
    /// Consumes the pair and hands its contents back out.
    pub fn destroy(self) -> (r: (i32, i32))
        ensures
            r == (*self.0, *self.1),
    {
        let Pair(first, second) = self;
        (*first, *second)
    }
}

/// Constructors, methods and a consuming method, run on the lesson's
/// rectangle, square and pair.
pub fn associated_functions_and_methods() -> (r: (i64, i64, i32, i32))
    ensures
        r == (14i64, 12i64, 1i32, 2i32),
{
    let rectangle = Rectangle { p1: Point::origin(), p2: Point::new(3, 4) };
    let mut square = Rectangle { p1: Point::origin(), p2: Point::new(1, 1) };

    let perimeter = rectangle.perimeter();
    proof {
        assert((rectangle.p1.x - rectangle.p2.x) * (rectangle.p1.y - rectangle.p2.y) == 12)
            by (nonlinear_arith)
            requires
                rectangle.p1.x == 0,
                rectangle.p1.y == 0,
                rectangle.p2.x == 3,
                rectangle.p2.y == 4,
        ;
    }
    let area = rectangle.area();
    assert(perimeter == 14);
    assert(area == 12);

    square.translate(1, 1);
    assert(square.p1.x == 1 && square.p2.x == 2);

    let pair = Pair(Box::new(1), Box::new(2));
    let contents = pair.destroy();
    (perimeter, area, contents.0, contents.1)
}

/// Two closures, one annotated and one inferred, each promising to add
/// one; a third returns a constant.
pub fn closures() -> (r: (i32, i32, i32))
    ensures
        r == (2i32, 2i32, 1i32),
{
    let closure_annotated = |i: i32| -> (res: i32)
        requires
            i < i32::MAX,
        ensures
            res == i + 1,
        { i + 1 };
    let closure_inferred = |i: i32| -> (res: i32)
        requires
            i < i32::MAX,
        ensures
            res == i + 1,
        { i + 1 };

    let i: i32 = 1;
    let a = closure_annotated(i);
    let b = closure_inferred(i);

    let one = || -> (res: i32)
        ensures
            res == 1,
        { 1 };
    let c = one();
    (a, b, c)
}

/// Calls the given function on 3 and passes its promise along.
pub fn apply_to_3<F: Fn(i32) -> i32>(f: F) -> (r: i32)
    requires
        call_requires(f, (3,)),
    ensures
        call_ensures(f, (3,), r),
{
    f(3)
}

/// A doubling closure handed to [`apply_to_3`] yields six.
pub fn closures_as_input_params() -> (r: i32)
    ensures
        r == 6,
{
    let double = |x: i32| -> (res: i32)
        requires
            -1000 <= x <= 1000,
        ensures
            res == 2 * x,
        { 2 * x };
    let r = apply_to_3(double);
    assert(r == 6);
    r
}

/// Calls a function value that takes nothing, passing its promise along.
pub fn apply<F: Fn() -> u32>(f: F) -> (r: u32)
    requires
        call_requires(f, ()),
    ensures
        call_ensures(f, (), r),
{
    f()
}

/// A closure captures `x` from its surroundings; its type has no name,
/// but [`apply`] takes it all the same.
pub fn closures_type_anonymity() -> (r: u32)
    ensures
        r == 7,
{
    let x: u32 = 7;
    let print = || -> (res: u32)
        ensures
            res == x,
        { x };
    let r = apply(print);
    assert(r == 7);
    r
}

/// Calls a function value that reports a line of text.
pub fn call_me<F: Fn() -> &'static str>(f: F) -> (r: &'static str)
    requires
        call_requires(f, ()),
    ensures
        call_ensures(f, (), r),
{
    f()
}

/// A plain function can be passed wherever a closure is expected.
pub fn my_func() -> (r: &'static str)
    ensures
        r@ == "I am a function"@,
{
    "I am a function"
}

/// Hands both a closure and a named function to [`call_me`].
pub fn closures_input_functions() -> (r: (&'static str, &'static str))
    ensures
        r.0@ == "I am a closure"@,
        r.1@ == "I am a function"@,
{
    let closure = || -> (res: &'static str)
        ensures
            res@ == "I am a closure"@,
        { "I am a closure" };
    let a = call_me(closure);
    let b = call_me(my_func);
    (a, b)
}

/// Whether the vector holds the value, found by walking it.
pub fn contains(haystack: &Vec<i32>, needle: i32) -> (r: bool)
    ensures
        r == haystack@.contains(needle),
{
    let n = haystack.len();
    let mut i: usize = 0;
    while i < n
        invariant
            n == haystack@.len(),
            i <= n,
            forall|j: int| 0 <= j < i ==> haystack@[j] != needle,
        decreases n - i,
    {
        if haystack[i] == needle {
            proof {
                assert(haystack@[i as int] == needle);
            }
            return true;
        }
        i = i + 1;
    }
    proof {
        assert(!haystack@.contains(needle));
    }
    false
}

/// Whether a three-element array holds the value.
pub fn array_contains(haystack: &[i32; 3], needle: i32) -> (r: bool)
    ensures
        r == (haystack[0] == needle || haystack[1] == needle || haystack[2] == needle),
{
    haystack[0] == needle || haystack[1] == needle || haystack[2] == needle
}

/// A moved vector looked up by a closure over [`contains`].
pub fn closures_move() -> (r: (bool, bool))
    ensures
        r.0 == true,
        r.1 == false,
{
    let vec1 = vec![1i32, 2i32, 3i32];
    let contains_move = |value: i32| -> (res: bool)
        ensures
            res == vec1@.contains(value),
        { contains(&vec1, value) };
    let a = contains_move(1);
    let b = contains_move(4);
    proof {
        assert(vec1@[0] == 1);
        assert(forall|j: int| 0 <= j < 3 ==> vec1@[j] != 4);
    }
    (a, b)
}

/// Searching vectors and arrays for the value two.
pub fn closures_iterator_any() -> (r: (bool, bool, bool, bool))
    ensures
        r == (true, false, true, false),
{
    let vec1 = vec![1i32, 2i32, 3i32];
    let vec2 = vec![4i32, 5i32, 6i32];
    let a = contains(&vec1, 2);
    let b = contains(&vec2, 2);
    proof {
        assert(vec1@[1] == 2);
        assert(forall|j: int| 0 <= j < 3 ==> vec2@[j] != 2);
    }

    let array1 = [1i32, 2i32, 3i32];
    let array2 = [4i32, 5i32, 6i32];
    let c = array_contains(&array1, 2);
    let d = array_contains(&array2, 2);
    (a, b, c, d)
}

/// The sum of every odd square among `0*0, 1*1, ..., (k-1)*(k-1)` that
/// stays under `upper`.
pub open spec fn odd_square_sum(k: nat, upper: nat) -> int
    decreases k,
{
    if k == 0 {
        0
    } else {
        odd_square_sum((k - 1) as nat, upper) + square_term((k - 1) as nat, upper)
    }
}

/// One candidate term: `n * n` when that is odd and under `upper`.
pub open spec fn square_term(n: nat, upper: nat) -> int {
    if n * n < upper && (n * n) % 2 == 1 {
        (n * n) as int
    } else {
        0
    }
}

proof fn lemma_odd_square_sum_bound(k: nat, upper: nat)
    ensures
        0 <= odd_square_sum(k, upper) <= k * upper,
    decreases k,
{
    if k == 0 {
    } else {
        lemma_odd_square_sum_bound((k - 1) as nat, upper);
        assert(square_term((k - 1) as nat, upper) <= upper);
        assert(k * upper == (k - 1) as nat * upper + upper) by (nonlinear_arith)
            requires
                k >= 1,
        ;
    }
}

proof fn lemma_odd_square_sum_stable(k0: nat, k: nat, upper: nat)
    requires
        k0 <= k,
        k0 * k0 >= upper,
    ensures
        odd_square_sum(k, upper) == odd_square_sum(k0, upper),
    decreases k - k0,
{
    if k > k0 {
        lemma_odd_square_sum_stable(k0, (k - 1) as nat, upper);
        assert((k - 1) as nat * (k - 1) as nat >= k0 * k0) by (nonlinear_arith)
            requires
                k0 <= (k - 1) as nat,
        ;
        assert(square_term((k - 1) as nat, upper) == 0);
    }
}

/// Sums the odd squares below `upper` with a plain loop; the contract
/// names the same sum through the one spec function, so an iterator
/// pipeline computing it is proved to agree with the loop.
pub fn sum_of_odd_squares_below(upper: u32) -> (acc: u64)
    ensures
        acc == odd_square_sum(upper as nat, upper as nat),
{
    let mut acc: u64 = 0;
    let mut n: u64 = 0;
    loop
        invariant_except_break
            acc == odd_square_sum(n as nat, upper as nat),
            n <= upper,
            n <= 0x1_0000,
        ensures
            acc == odd_square_sum(upper as nat, upper as nat),
        decreases upper - n,
    {
        proof {
            assert(n * n <= 0x1_0000 * 0x1_0000u64) by (nonlinear_arith)
                requires
                    n <= 0x1_0000u64,
            ;
        }
        let n_squared: u64 = n * n;
        if n_squared >= upper as u64 {
            proof {
                lemma_odd_square_sum_stable(n as nat, upper as nat, upper as nat);
            }
            break;
        }
        if n_squared % 2 == 1 {
            proof {
                lemma_odd_square_sum_bound(n as nat, upper as nat);
                assert(n * (upper as int) <= 0x1_0000 * 0x1_0000_0000) by (nonlinear_arith)
                    requires
                        n <= 0x1_0000u64,
                        upper <= 0x1_0000_0000,
                ;
            }
            acc = acc + n_squared;
        }
        proof {
            if n >= 1 {
                assert(n <= n * n) by (nonlinear_arith)
                    requires
                        n >= 1u64,
                ;
            }
            assert(n < 0x1_0000) by (nonlinear_arith)
                requires
                    n * n < 0x1_0000_0000u64,
            ;
        }
        n = n + 1;
        proof {
            assert(acc == odd_square_sum(n as nat, upper as nat));
        }
    }
    acc
}

/// The sum of the odd numbers below `k`.
pub open spec fn odd_sum(k: nat) -> int
    decreases k,
{
    if k == 0 {
        0
    } else {
        odd_sum((k - 1) as nat) + if (k - 1) % 2 == 1 {
            (k - 1) as int
        } else {
            0
        }
    }
}

proof fn lemma_odd_sum_bound(k: nat)
    ensures
        0 <= odd_sum(k) <= k * k,
    decreases k,
{
    if k > 0 {
        lemma_odd_sum_bound((k - 1) as nat);
        assert((k - 1) as nat * (k - 1) as nat + (k - 1) <= k * k) by (nonlinear_arith)
            requires
                k >= 1,
        ;
    }
}

/// Sums the odd numbers below `up_to`; the even branch of the `match`
/// diverges with `continue` instead of yielding a value.
pub fn sum_odd_numbers(up_to: u32) -> (acc: u32)
    requires
        up_to <= 0xffff,
    ensures
        acc == odd_sum(up_to as nat),
{
    let mut acc: u32 = 0;
    let mut i: u32 = 0;
    while i < up_to
        invariant
            i <= up_to,
            up_to <= 0xffff,
            acc == odd_sum(i as nat),
        decreases up_to - i,
    {
        proof {
            lemma_odd_sum_bound(i as nat);
            assert(i * i + i <= 0xffff * 0xffffu32 + 0xffff) by (nonlinear_arith)
                requires
                    i <= 0xffffu32,
            ;
        }
        let addition: u32 = if i % 2 == 1 {
            i
        } else {
            i = i + 1;
            continue ;
        };
        acc += addition;
        i = i + 1;
    }
    acc
}

} // verus!
