//! Generics: generic functions and types, traits as bounds, `where`
//! clauses, the new-type idiom, associated items, and phantom type
//! parameters.

use core::marker::PhantomData;
use vstd::prelude::*;

verus! {

/// A concrete type.
pub struct A;

/// A concrete type wrapping [`A`].
pub struct S(pub A);

/// A generic wrapper.
pub struct SGen<T>(pub T);

fn reg_fn(_s: S) {
}

fn gen_spec_t(_s: SGen<A>) {
}

fn generic<T>(_s: SGen<T>) {
}

/// Concrete and generic functions called with explicit and inferred
/// type parameters.
pub fn generics_functions() {
    reg_fn(S(A));
    gen_spec_t(SGen(A));
    generic::<char>(SGen('a'));
    generic(SGen('b'));
}

/// A concrete holder of one number.
pub struct Val {
    pub val: i64,
}

/// A generic holder of one value.
pub struct GenVal<T> {
    pub gen_val: T,
}

impl Val {
    /// Borrows the held number.
    pub fn value(&self) -> (r: &i64)
        ensures
            *r == self.val,
    {
        &self.val
    }
}

impl<T> GenVal<T> {
    /// Borrows the held value, whatever its type.
    pub fn value(&self) -> (r: &T)
        ensures
            *r == self.gen_val,
    {
        &self.gen_val
    }
}

/// Methods exist on the concrete and the generic impl alike.
pub fn generics_implementations() -> (r: (i64, i32))
    ensures
        r == (3i64, 3i32),
{
    let x = Val { val: 3 };
    let y = GenVal { gen_val: 3i32 };
    (*x.value(), *y.value())
}

/// An empty, non-copyable type.
pub struct Empty;

/// Another empty, non-copyable type.
pub struct Null;

/// A trait generic over the type it consumes alongside `Self`.
pub trait DoubleDrop<T> {
    /// Takes ownership of both arguments, deallocating both.
    fn double_drop(self, other: T);
}

impl<T, U> DoubleDrop<T> for U {
    fn double_drop(self, _other: T) {
    }
}

/// Any pair of values can be dropped together through the blanket impl.
pub fn generics_traits() {
    let empty = Empty;
    let null = Null;
    empty.double_drop(null);
}

/// Something with a measurable area.
pub trait HasArea {
    /// The area this value should report.
    spec fn area_spec(&self) -> int;

    /// Reports the area, as the spec prescribes.
    fn area(&self) -> (r: u64)
        ensures
            r == self.area_spec(),
    ;
}

/// A rectangle measured by side lengths.
#[derive(Clone, Copy)]
pub struct BoundedRectangle {
    pub length: u32,
    pub height: u32,
}

/// A triangle measured the same way; it has no area impl here.
#[allow(dead_code)]
pub struct BoundedTriangle {
    pub length: u32,
    pub height: u32,
}

impl HasArea for BoundedRectangle {
    open spec fn area_spec(&self) -> int {
        self.length * self.height
    }

    fn area(&self) -> (r: u64) {
        proof {
            assert(self.length * self.height <= 0xffff_ffffu64 * 0xffff_ffffu64)
                by (nonlinear_arith)
                requires
                    self.length <= 0xffff_ffffu64,
                    self.height <= 0xffff_ffffu64,
            ;
        }
        (self.length as u64) * (self.height as u64)
    }
}

/// Works for any type bounded by [`HasArea`], through its contract.
pub fn area<T: HasArea>(t: &T) -> (r: u64)
    ensures
        r == t.area_spec(),
{
    t.area()
}

/// The bound admits the rectangle and reports twelve.
pub fn generics_bounds() -> (r: u64)
    ensures
        r == 12,
{
    let rectangle = BoundedRectangle { length: 3, height: 4 };
    let _triangle = BoundedTriangle { length: 3, height: 4 };
    let a = area(&rectangle);
    proof {
        assert(rectangle.length * rectangle.height == 12) by (nonlinear_arith)
            requires
                rectangle.length == 3u32 && rectangle.height == 4u32,
        ;
    }
    a
}

/// A type that implements a trait only under a `where` clause.
pub struct YourType;

/// A two-parameter trait to hang bounds on.
pub trait MultiBound<T, U> {
    /// The text the description must report.
    spec fn description(&self) -> Seq<char>;

    /// Reports the description the spec prescribes.
    fn describe(&self) -> (r: &'static str)
        ensures
            r@ == self.description(),
    ;
}

/// One side of a bound.
pub trait TraitB {
    /// Marks the implementing type.
    fn mark_b(&self) -> bool;
}

/// The other side of a bound.
pub trait TraitC {
    /// Marks the implementing type.
    fn mark_c(&self) -> bool;
}

/// A number carries both marks.
impl TraitB for i32 {
    fn mark_b(&self) -> bool {
        true
    }
}

impl TraitC for i32 {
    fn mark_c(&self) -> bool {
        true
    }
}

impl<T2, U2> MultiBound<T2, U2> for YourType where T2: TraitB + TraitC, U2: TraitB {
    open spec fn description(&self) -> Seq<char> {
        "bounded on both sides"@
    }

    fn describe(&self) -> (r: &'static str) {
        "bounded on both sides"
    }
}

/// A `where` clause states bounds more clearly than inline syntax when
/// they pile up.
pub fn generics_where_clauses() -> (r: &'static str)
    ensures
        r@ == "bounded on both sides"@,
{
    let value = YourType;
    let description = <YourType as MultiBound<i32, i32>>::describe(&value);
    proof {
        reveal_strlit("bounded on both sides");
    }
    description
}

/// Years, kept apart from days by the type system.
pub struct Years(pub i64);

/// Days, the other side of the new-type pair.
pub struct Days(pub i64);

impl Years {
    /// Years expressed in days.
    pub fn to_days(&self) -> (r: Days)
        requires
            i64::MIN <= self.0 * 365 <= i64::MAX,
        ensures
            r.0 == self.0 * 365,
    {
        Days(self.0 * 365)
    }
}

impl Days {
    /// Days rounded down to whole years; partial years do not count.
    pub fn to_years(&self) -> (r: Years)
        requires
            self.0 >= 0,
        ensures
            r.0 == self.0 / 365,
    {
        Years(self.0 / 365)
    }
}

/// Only a value typed as years is accepted here.
pub fn old_enough(age: &Years) -> (r: bool)
    ensures
        r == (age.0 >= 18),
{
    age.0 >= 18
}

/// Five years stay under age whichever way they are measured.
pub fn generics_new_type_idiom() -> (r: (bool, bool))
    ensures
        r == (false, false),
{
    let age = Years(5);
    proof {
        assert(5i64 * 365 == 1825) by (nonlinear_arith);
    }
    let age_days = age.to_days();
    assert(age_days.0 == 1825);
    let first = old_enough(&age);
    let back = age_days.to_years();
    assert(back.0 == 5);
    let second = old_enough(&back);
    (first, second)
}

/// A container whose element types are associated items rather than
/// extra type parameters.
pub trait Contains {
    /// The first element type.
    type A;

    /// The second element type.
    type B;

    /// What the first stored number is.
    spec fn first_spec(&self) -> i32;

    /// What the last stored number is.
    spec fn last_spec(&self) -> i32;

    /// Whether the two given values are the stored ones.
    spec fn contains_spec(&self, a: &Self::A, b: &Self::B) -> bool;

    /// Answers exactly as `contains_spec` prescribes.
    fn contains(&self, number_1: &Self::A, number_2: &Self::B) -> (r: bool)
        ensures
            r == self.contains_spec(number_1, number_2),
    ;

    /// The first stored number.
    fn first(&self) -> (r: i32)
        ensures
            r == self.first_spec(),
    ;

    /// The last stored number.
    fn last(&self) -> (r: i32)
        ensures
            r == self.last_spec(),
    ;
}

/// Two numbers in a row.
pub struct Container(pub i32, pub i32);

impl Contains for Container {
    type A = i32;

    type B = i32;

    open spec fn first_spec(&self) -> i32 {
        self.0
    }

    open spec fn last_spec(&self) -> i32 {
        self.1
    }

    open spec fn contains_spec(&self, a: &i32, b: &i32) -> bool {
        self.0 == *a && self.1 == *b
    }

    fn contains(&self, number_1: &i32, number_2: &i32) -> (r: bool) {
        self.0 == *number_1 && self.1 == *number_2
    }

    fn first(&self) -> (r: i32) {
        self.0
    }

    fn last(&self) -> (r: i32) {
        self.1
    }
}

/// The spread between last and first, computed through the trait alone.
pub fn difference<C: Contains>(container: &C) -> (r: i64)
    ensures
        r == container.last_spec() - container.first_spec(),
{
    container.last() as i64 - container.first() as i64
}

/// The container holds 3 and 10, and their difference is 7.
pub fn generics_associated_items() -> (r: (bool, i32, i32, i64))
    ensures
        r == (true, 3i32, 10i32, 7i64),
{
    let number_1: i32 = 3;
    let number_2: i32 = 10;
    let container = Container(number_1, number_2);

    let holds = container.contains(&number_1, &number_2);
    let first = container.first();
    let last = container.last();
    let spread = difference(&container);
    (holds, first, last, spread)
}

/// A tuple generic over `A` with a hidden, compile-time-only `B`.
pub struct PhantomTuple<T, H>(pub T, pub PhantomData<H>);

/// A struct generic over `A` with a hidden, compile-time-only `B`.
pub struct PhantomStruct<T, H> {
    pub first: T,
    pub phantom: PhantomData<H>,
}

/// The hidden parameter separates otherwise identical values at compile
/// time; at run time only the visible half exists.
pub fn generics_phantom_type_params() -> (r: (char, char))
    ensures
        r == ('Q', 'Q'),
{
    let tuple1: PhantomTuple<char, u32> = PhantomTuple('Q', PhantomData);
    let tuple2: PhantomTuple<char, u64> = PhantomTuple('Q', PhantomData);

    let struct1: PhantomStruct<char, u32> = PhantomStruct { first: 'Q', phantom: PhantomData };
    let struct2: PhantomStruct<char, u64> = PhantomStruct { first: 'Q', phantom: PhantomData };
    assert(tuple2.0 == 'Q');
    assert(struct2.first == 'Q');

    (tuple1.0, struct1.first)
}

} // verus!
