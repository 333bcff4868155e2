//! Scoping rules: ownership and moves, borrowing, and lifetimes. Where
//! the borrow checker alone carries the lesson, the functions here hold
//! the values it lets through and prove what they are.

use vstd::prelude::*;
use vstd::string::StringExecFns;

verus! {

/// Scopes decide when borrows are valid, when resources are freed, and
/// when variables are created or destroyed.
pub fn intro() {
}

fn create_box() {
    let _box1 = Box::new(3i32);
    // `_box1` is destroyed here, and memory gets freed
}

/// Owned boxes go out of scope and are freed without any manual step;
/// a thousand allocations in a loop leak nothing.
pub fn raii() -> (r: i32)
    ensures
        r == 5,
{
    let _box2 = Box::new(5i32);
    {
        let _box3 = Box::new(4i32);
        // `_box3` is destroyed here, and memory gets freed
    }
    let mut i: u32 = 0;
    while i < 1000
        invariant
            i <= 1000,
        decreases 1000 - i,
    {
        create_box();
        i += 1;
    }
    *_box2
    // `_box2` is destroyed here, and memory gets freed
}

/// Takes ownership of the heap allocation and hands back what it held.
pub fn destroy_box(c: Box<i32>) -> (r: i32)
    ensures
        r == *c,
{
    *c
    // `c` is destroyed and the memory freed
}

/// A stack value is copied, a boxed value is moved; the destroyed box
/// still reports its contents.
pub fn ownership_and_moves() -> (r: (u32, u32, i32))
    ensures
        r == (5u32, 5u32, 5i32),
{
    let x: u32 = 5;
    let y: u32 = x;
    assert(x == 5 && y == 5);

    let a: Box<i32> = Box::new(5);
    let b = a;
    let destroyed = destroy_box(b);
    (x, y, destroyed)
}

/// Moving a box into a `mut` binding makes its contents writable.
pub fn ownership_and_movers_of_mutability() -> (r: u32)
    ensures
        r == 4,
{
    let immutable_box: Box<u32> = Box::new(5);
    assert(*immutable_box == 5);

    let mut mutable_box = immutable_box;
    assert(*mutable_box == 5);

    *mutable_box = 4;
    assert(*mutable_box == 4);
    *mutable_box
}

/// A name on the stack and an age on the heap, owned together.
pub struct Person {
    pub name: String,
    pub age: Box<u8>,
}

/// One field is read through the struct while the other is moved out.
pub fn partial_moves() -> (r: (String, u8))
    ensures
        r.0@ == "Alice"@,
        r.1 == 20,
{
    let person = Person { name: String::from_str("Alice"), age: Box::new(20) };

    let age: u8 = *person.age;
    let Person { name, age: _ } = person;
    assert(age == 20);
    (name, age)
}

/// Borrows the contents of a box without taking ownership.
pub fn borrow_i32(borrowed_i32: &i32) -> (r: i32)
    ensures
        r == *borrowed_i32,
{
    *borrowed_i32
}

/// Boxed and stacked values can both be borrowed, repeatedly; the box is
/// consumed only once no borrow is left.
pub fn borrowing() -> (r: (i32, i32, i32))
    ensures
        r == (5i32, 6i32, 5i32),
{
    let boxed_i32: Box<i32> = Box::new(5);
    let stacked_i32: i32 = 6;

    let first = borrow_i32(&boxed_i32);
    let second = borrow_i32(&stacked_i32);
    {
        let ref_to_i32: &i32 = &boxed_i32;
        let again = borrow_i32(ref_to_i32);
        assert(again == 5);
    }
    let eaten = destroy_box(boxed_i32);
    (first, second, eaten)
}

/// A book with borrowed text and a year of publication.
#[derive(Clone, Copy)]
pub struct Book {
    pub author: &'static str,
    pub title: &'static str,
    pub year: u32,
}

/// Reads the year through an immutable borrow.
pub fn borrow_book(book: &Book) -> (r: u32)
    ensures
        r == book.year,
{
    book.year
}

/// A mutable borrow lets the year be brought up to date; the text is
/// left alone.
pub fn new_edition(book: &mut Book)
    ensures
        final(book).year == 2014,
        final(book).author == old(book).author,
        final(book).title == old(book).title,
{
    book.year = 2014;
}

/// An immutable book is copied into a mutable one, and only the copy
/// takes the new edition.
pub fn borrowing_mutability() -> (r: (u32, u32))
    ensures
        r == (1979u32, 2014u32),
{
    let immutabook = Book {
        author: "Douglas Hofstadter",
        title: "Goedel, Escher, Bach",
        year: 1979,
    };
    let mut mutabook = immutabook;

    let old_year = borrow_book(&immutabook);
    let before = borrow_book(&mutabook);
    assert(before == 1979);

    new_edition(&mut mutabook);
    let new_year = borrow_book(&mutabook);
    assert(immutabook.year == 1979);
    (old_year, new_year)
}

/// A point in space.
pub struct Point3 {
    pub x: i32,
    pub y: i32,
    pub z: i32,
}

/// Many immutable borrows may look at a point; one mutable borrow then
/// rewrites every coordinate.
pub fn borrowing_aliasing() -> (r: (i32, i32, i32))
    ensures
        r == (5i32, 2i32, 1i32),
{
    let mut point = Point3 { x: 0, y: 0, z: 0 };
    {
        let borrowed_point = &point;
        let another_borrow = &point;
        assert(borrowed_point.x == 0 && another_borrow.y == 0 && point.z == 0);
    }

    let mutable_borrow = &mut point;
    mutable_borrow.x = 5;
    mutable_borrow.y = 2;
    mutable_borrow.z = 1;

    let new_borrowed_point = &point;
    (new_borrowed_point.x, new_borrowed_point.y, new_borrowed_point.z)
}

/// A point on the plane.
#[derive(Clone, Copy)]
pub struct FlatPoint {
    pub x: i32,
    pub y: i32,
}

/// Borrows on the left of a binding mirror `&` on the right; a borrow
/// into a tuple or a struct reaches one field.
pub fn borrowing_the_ref_pattern() -> (r: (bool, u32, i32, i32))
    ensures
        r == (true, 2u32, 0i32, 1i32),
{
    let c: char = 'Q';
    let ref_c1: &char = &c;
    let ref_c2: &char = &c;
    let same = *ref_c1 == *ref_c2;

    let mut mutable_tuple = (Box::new(5u32), 3u32);
    {
        let last = &mut mutable_tuple.1;
        *last = 2;
    }
    assert(mutable_tuple.1 == 2);

    let point = FlatPoint { x: 0, y: 0 };
    let copy_of_x = point.x;

    let mut mutable_point = point;
    {
        let mut_ref_to_y = &mut mutable_point.y;
        *mut_ref_to_y = 1;
    }
    assert(point.y == 0);
    (same, mutable_tuple.1, copy_of_x, mutable_point.y)
}

/// The longest-lived binding outlives two disjoint borrows of it.
pub fn lifetime() -> (r: i32)
    ensures
        r == 3,
{
    let i: i32 = 3;
    {
        let borrow1 = &i;
        assert(*borrow1 == 3);
    }
    {
        let borrow2 = &i;
        assert(*borrow2 == 3);
    }
    i
}

/// Two references with two explicitly annotated lifetimes.
pub fn print_refs<'a, 'b>(x: &'a i32, y: &'b i32) -> (r: (i32, i32))
    ensures
        r == (*x, *y),
{
    (*x, *y)
}

fn failed_borrow<'a>() {
    let _x: i32 = 12;
    // a binding annotated `&'a i32` could not borrow `_x`: too short-lived
}

/// Borrowed inputs must outlive the function that borrows them.
pub fn lifetime_explicit_annotation() -> (r: (i32, i32))
    ensures
        r == (4i32, 9i32),
{
    let four: i32 = 4;
    let nine: i32 = 9;
    let pair = print_refs(&four, &nine);
    failed_borrow();
    pair
}

/// One borrowed input, read through its annotated lifetime.
pub fn print_one<'a>(x: &'a i32) -> (r: i32)
    ensures
        r == *x,
{
    *x
}

/// A mutable reference works with a lifetime as well.
pub fn add_one<'a>(x: &'a mut i32)
    requires
        *old(x) < i32::MAX,
    ensures
        *final(x) == *old(x) + 1,
{
    *x += 1;
}

/// Two borrowed inputs with distinct lifetimes.
pub fn print_multi<'a, 'b>(x: &'a i32, y: &'b i32) -> (r: (i32, i32))
    ensures
        r == (*x, *y),
{
    (*x, *y)
}

/// A passed-in reference may be returned, with the right lifetime.
pub fn pass_x<'a, 'b>(x: &'a i32, _y: &'b i32) -> (r: &'a i32)
    ensures
        *r == *x,
{
    x
}

/// Reads, passes through and increments through annotated references.
pub fn lifetime_functions() -> (r: (i32, i32))
    ensures
        r == (7i32, 4i32),
{
    let x: i32 = 7;
    let y: i32 = 9;

    let a = print_one(&x);
    let pair = print_multi(&x, &y);
    assert(pair == (7i32, 9i32));

    let z = pass_x(&x, &y);
    let b = print_one(z);
    assert(b == 7);

    let mut t: i32 = 3;
    add_one(&mut t);
    let c = print_one(&t);
    (a, c)
}

/// An owner of one number, with methods annotated like the functions.
pub struct Owner(pub i32);

impl Owner {
    /// Adds one in place.
    pub fn add_one<'a>(&'a mut self)
        requires
            old(self).0 < i32::MAX,
        ensures
            final(self).0 == old(self).0 + 1,
    {
        self.0 += 1;
    }

    /// Reads the number.
    pub fn value<'a>(&'a self) -> (r: i32)
        ensures
            r == self.0,
    {
        self.0
    }
}

/// Methods borrow `self` just as functions borrow their arguments.
pub fn lifetime_methods() -> (r: i32)
    ensures
        r == 19,
{
    let mut owner = Owner(18);
    owner.add_one();
    owner.value()
}

/// A struct holding one borrowed number.
pub struct Borrowed<'a>(pub &'a i32);

/// A struct holding two borrowed numbers.
pub struct NamedBorrowed<'a> {
    pub x: &'a i32,
    pub y: &'a i32,
}

/// Either an owned number or a borrowed one.
pub enum Either<'a> {
    Num(i32),
    Ref(&'a i32),
}

/// Structs and enums can borrow, provided the borrowed values outlive
/// them.
pub fn lifetime_structs() -> (r: (i32, i32, i32, i32))
    ensures
        r == (18i32, 15i32, 18i32, 15i32),
{
    let x: i32 = 18;
    let y: i32 = 15;

    let single = Borrowed(&x);
    let double = NamedBorrowed { x: &x, y: &y };
    let reference = Either::Ref(&x);
    let number = Either::Num(y);

    let from_single = *single.0;
    assert(*double.x == 18 && *double.y == 15);

    let from_reference: i32 = match reference {
        Either::Ref(inner) => *inner,
        Either::Num(n) => n,
    };
    let from_number: i32 = match number {
        Either::Ref(inner) => *inner,
        Either::Num(n) => n,
    };
    (from_single, *double.y, from_reference, from_number)
}

impl<'a> core::default::Default for Borrowed<'a> {
    /// The default borrows a ten that lives in the binary.
    fn default() -> (r: Self)
        ensures
            *r.0 == 10,
    {
        Borrowed(&10)
    }
}

/// A trait impl may carry lifetimes; the default `Borrowed` holds ten.
pub fn lifetime_traits() -> (r: i32)
    ensures
        r == 10,
{
    let b: Borrowed<'_> = core::default::Default::default();
    *b.0
}

/// A borrow of a generic value, every reference in it outliving `'a`.
pub struct GenRef<'a, T: 'a>(pub &'a T);

/// Hands a borrowed generic value back out.
pub fn peek<'a, T>(t: &'a T) -> (r: &'a T)
    ensures
        r == t,
{
    t
}

/// Lifetimes bound generics just as traits do.
pub fn lifetime_bounds() -> (r: i32)
    ensures
        r == 7,
{
    let x: i32 = 7;
    let ref_x = GenRef(&x);
    let seen = peek(&ref_x);
    *seen.0
}

/// Multiplies through two references coerced to one lifetime.
pub fn multiply<'a>(first: &'a i32, second: &'a i32) -> (r: i32)
    requires
        i32::MIN <= *first * *second <= i32::MAX,
    ensures
        r == *first * *second,
{
    *first * *second
}

/// Returns the first reference, its longer lifetime coerced to the
/// shorter one.
pub fn choose_first<'a: 'b, 'b>(first: &'a i32, _second: &'b i32) -> (r: &'b i32)
    ensures
        *r == *first,
{
    first
}

/// A longer lifetime shrinks to fit an inner scope.
pub fn lifetime_coercion() -> (r: (i32, i32))
    ensures
        r == (6i32, 2i32),
{
    let first: i32 = 2;
    let mut product: i32 = 0;
    let mut chosen: i32 = 0;
    {
        let second: i32 = 3;
        proof {
            assert(first * second == 6) by (nonlinear_arith)
                requires
                    first == 2 && second == 3,
            ;
        }
        product = multiply(&first, &second);
        chosen = *choose_first(&first, &second);
    }
    (product, chosen)
}

/// A number that lives in read-only memory for the whole run.
pub const NUM: i32 = 18;

/// Borrows the long-lived [`NUM`], coerced to the caller's lifetime.
pub fn coerce_static<'a>(_reference: &'a i32) -> (r: &'a i32)
    ensures
        *r == NUM,
{
    &NUM
}

/// A string literal and a constant both outlive every scope here.
pub fn lifetime_static() -> (r: (i32, i32))
    ensures
        r == (18i32, 18i32),
{
    let static_string: &'static str = "I'm in read-only memory";
    let mut coerced: i32 = 0;
    {
        let lifetime_num: i32 = 9;
        let coerced_static = coerce_static(&lifetime_num);
        coerced = *coerced_static;
    }
    (coerced, NUM)
}

/// The lifetime here is written in full.
pub fn annotated_input<'a>(x: &'a i32) -> (r: i32)
    ensures
        r == *x,
{
    *x
}

/// The same signature with the lifetime left out, elided.
pub fn elided_input(x: &i32) -> (r: i32)
    ensures
        r == *x,
{
    *x
}

/// Passes the reference through, lifetime written in full.
pub fn annotated_pass<'a>(x: &'a i32) -> (r: &'a i32)
    ensures
        *r == *x,
{
    x
}

/// Passes the reference through with the lifetime elided.
pub fn elided_pass(x: &i32) -> (r: &i32)
    ensures
        *r == *x,
{
    x
}

/// Elided and annotated signatures behave identically.
pub fn lifetime_elision() -> (r: (i32, i32))
    ensures
        r == (3i32, 3i32),
{
    let x: i32 = 3;
    let a = elided_input(&x);
    let b = annotated_input(&x);
    assert(a == 3 && b == 3);
    (*elided_pass(&x), *annotated_pass(&x))
}

} // verus!
