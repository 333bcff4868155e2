use lessons::control_flow::{AgeBracket, AnswerKind, PairKind};
use lessons::functions::output_params;
use lessons::functions::{self, Pair, Point, Rectangle};
use lessons::generics::Years;
use lessons::scoping::{self, Book, Borrowed, Owner};
use lessons::control_flow;

#[test]
fn guard_and_binding_drivers() {
    let guards = control_flow::match_guards();
    assert!(matches!(guards.0, PairKind::Antimatter));
    assert!(matches!(guards.1, PairKind::Twins));
    assert!(matches!(guards.2, PairKind::FirstOdd));
    assert!(matches!(guards.3, PairKind::NoCorrelation));

    let bindings = control_flow::match_binding();
    assert!(matches!(bindings.0, AgeBracket::Teen(19)));
    assert!(matches!(bindings.1, AnswerKind::TheAnswer));
}

#[test]
fn divisibility() {
    assert!(functions::is_divisible_by(15, 3));
    assert!(!functions::is_divisible_by(14, 3));
    assert!(!functions::is_divisible_by(7, 0));
}

#[test]
fn fizzbuzz_to_sixteen() {
    let lines = functions::fizzbuzz_to(16);
    assert_eq!(lines.len(), 16);
    assert_eq!(lines[2], "fizz");
    assert_eq!(lines[4], "buzz");
    assert_eq!(lines[14], "fizzbuzz");
    assert_eq!(lines[15], "16");
}

#[test]
fn rectangle_geometry() {
    let rectangle = Rectangle { p1: Point::origin(), p2: Point::new(3, 4) };
    assert_eq!(rectangle.perimeter(), 14);
    assert_eq!(rectangle.area(), 12);

    let mut square = Rectangle { p1: Point::origin(), p2: Point::new(1, 1) };
    square.translate(1, 1);
    assert_eq!(square.p1.x, 1);
    assert_eq!(square.p2.y, 2);

    assert_eq!(functions::associated_functions_and_methods(), (14, 12, 1, 2));
}

#[test]
fn pair_destroy() {
    let pair = Pair(Box::new(1), Box::new(2));
    assert_eq!(pair.destroy(), (1, 2));
}

#[test]
fn closure_drivers() {
    assert_eq!(functions::closures(), (2, 2, 1));
    assert_eq!(functions::closures_as_input_params(), 6);
    assert_eq!(functions::closures_type_anonymity(), 7);
    let (a, b) = functions::closures_input_functions();
    assert_eq!(a, "I am a closure");
    assert_eq!(b, "I am a function");
    assert_eq!(functions::my_func(), "I am a function");
}

#[test]
fn closures_come_back_out() {
    let (a, b, c) = output_params::closures_as_output_params();
    assert_eq!(a, "This is a: Fn");
    assert_eq!(b, "This is a: FnMut");
    assert_eq!(c, "This is a: FnOnce");
    let f = output_params::create_fn();
    assert_eq!(f(), "This is a: Fn");
}

#[test]
fn searching() {
    let vec1 = vec![1, 2, 3];
    assert!(functions::contains(&vec1, 1));
    assert!(!functions::contains(&vec1, 4));
    assert_eq!(functions::closures_move(), (true, false));
    assert_eq!(functions::closures_iterator_any(), (true, false, true, false));
    assert!(functions::array_contains(&[1, 2, 3], 2));
    assert!(!functions::array_contains(&[4, 5, 6], 2));
}

#[test]
fn higher_order_sum() {
    assert_eq!(functions::sum_of_odd_squares_below(1000), 5456);
    assert_eq!(functions::sum_of_odd_squares_below(0), 0);
    assert_eq!(functions::sum_of_odd_squares_below(2), 1);
}

#[test]
fn diverging_sum() {
    assert_eq!(functions::sum_odd_numbers(9), 16);
    assert_eq!(functions::sum_odd_numbers(0), 0);
    assert_eq!(functions::sum_odd_numbers(1), 0);
    assert_eq!(functions::sum_odd_numbers(2), 1);
}

#[test]
fn raii_and_moves() {
    assert_eq!(scoping::raii(), 5);
    assert_eq!(scoping::ownership_and_moves(), (5, 5, 5));
    assert_eq!(scoping::ownership_and_movers_of_mutability(), 4);
    assert_eq!(scoping::destroy_box(Box::new(9)), 9);
}

#[test]
fn partial_move() {
    let (name, age) = scoping::partial_moves();
    assert_eq!(name, "Alice");
    assert_eq!(age, 20);
}

#[test]
fn borrowing_demos() {
    assert_eq!(scoping::borrowing(), (5, 6, 5));
    assert_eq!(scoping::borrow_i32(&6), 6);
    assert_eq!(scoping::borrowing_aliasing(), (5, 2, 1));
    assert_eq!(scoping::borrowing_the_ref_pattern(), (true, 2, 0, 1));
}

#[test]
fn book_editions() {
    assert_eq!(scoping::borrowing_mutability(), (1979, 2014));
    let mut book = Book { author: "A", title: "T", year: 2000 };
    scoping::new_edition(&mut book);
    assert_eq!(book.year, 2014);
    assert_eq!(book.title, "T");
    assert_eq!(scoping::borrow_book(&book), 2014);
}

#[test]
fn lifetime_demos() {
    assert_eq!(scoping::lifetime(), 3);
    assert_eq!(scoping::lifetime_explicit_annotation(), (4, 9));
    assert_eq!(scoping::lifetime_functions(), (7, 4));
    assert_eq!(scoping::lifetime_methods(), 19);
    assert_eq!(scoping::lifetime_structs(), (18, 15, 18, 15));
    assert_eq!(scoping::lifetime_traits(), 10);
    assert_eq!(scoping::lifetime_bounds(), 7);
    assert_eq!(scoping::lifetime_coercion(), (6, 2));
    assert_eq!(scoping::lifetime_static(), (18, 18));
    assert_eq!(scoping::lifetime_elision(), (3, 3));
}

#[test]
fn lifetime_pieces() {
    let mut owner = Owner(18);
    owner.add_one();
    assert_eq!(owner.value(), 19);

    let mut t = 3;
    scoping::add_one(&mut t);
    assert_eq!(t, 4);

    let x = 7;
    let y = 9;
    assert_eq!(*scoping::pass_x(&x, &y), 7);
    assert_eq!(*scoping::choose_first(&x, &y), 7);
    assert_eq!(scoping::multiply(&2, &3), 6);
    assert_eq!(*scoping::coerce_static(&y), 18);

    let b: Borrowed<'_> = Default::default();
    assert_eq!(*b.0, 10);
}

#[test]
fn old_enough_by_type() {
    let age = Years(5);
    let age_days = age.to_days();
    assert_eq!(age_days.0, 1825);
    let back = age_days.to_years();
    assert_eq!(back.0, 5);
    assert!(!lessons::generics::old_enough(&back));
    assert!(lessons::generics::old_enough(&Years(20)));
}
