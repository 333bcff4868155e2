use lessons::generics::{
    self, BoundedRectangle, Contains, Container, DoubleDrop, GenVal, Val,
};
use lessons::visibility::{self, my, my_box, my_mod, ClosedBox, OpenBox};
use lessons::{attributes, cargo};

#[test]
fn visibility_reports() {
    let lines = visibility::visibility();
    assert_eq!(lines.len(), 5);
    assert_eq!(lines[0], "called `my_mod::function()`");
    assert_eq!(
        lines[1],
        "called `my_mod::indirect_access()`, that\n> called `my_mod::private_function()`"
    );
    assert_eq!(lines[2], "called `my_mod::nested::function()`");
    assert_eq!(
        lines[3],
        "called `my_mod::call_public_function_in_my_mod()`, that\n\
         > called `my_mod::nested::public_function_in_my_mod()`, that\n\
         > called `my_mod::nested::public_function_in_nested()`\n\
         > called `my_mod::nested::public_function_in_super_mod()`"
    );
    assert_eq!(lines[4], "called `my_mod::public_function_in_crate()`");
}

#[test]
fn module_paths() {
    assert_eq!(my_mod::function(), "called `my_mod::function()`");
    assert_eq!(my_mod::nested::function(), "called `my_mod::nested::function()`");
}

#[test]
fn boxes() {
    let open_box = OpenBox { contents: "public information" };
    assert_eq!(open_box.contents, "public information");

    let _closed_box: ClosedBox<&str> = my_box::ClosedBox::new("classified information");
    assert_eq!(visibility::struct_visibility(), "public information");
}

#[test]
fn use_and_paths() {
    let (through_alias, local) = visibility::use_declaration();
    assert_eq!(through_alias, "called `deeply::nested::function()`");
    assert_eq!(local, "called `function()`");

    let reports = visibility::super_and_self();
    assert_eq!(reports.len(), 6);
    assert_eq!(reports[0], "called `my::indirect_call()`, that");
    assert_eq!(reports[1], "called `my::function()`");
    assert_eq!(reports[2], "called `my::function()`");
    assert_eq!(reports[3], "called `my::cool::function()`");
    assert_eq!(reports[4], "called `function()`");
    assert_eq!(reports[5], "called `cool::function()`");

    let direct = my::indirect_call();
    assert_eq!(direct.len(), 6);
}

#[test]
fn generic_functions_compile_and_run() {
    generics::generics_functions();
    generics::generics_traits();
}

#[test]
fn generic_implementations() {
    assert_eq!(generics::generics_implementations(), (3, 3));
    let x = Val { val: 3 };
    assert_eq!(*x.value(), 3);
    let y = GenVal { gen_val: 'c' };
    assert_eq!(*y.value(), 'c');
}

#[test]
fn double_drop_consumes() {
    let a = String::from("left");
    let b = String::from("right");
    a.double_drop(b);
}

#[test]
fn bounded_area() {
    assert_eq!(generics::generics_bounds(), 12);
    let rectangle = BoundedRectangle { length: 3, height: 4 };
    assert_eq!(generics::area(&rectangle), 12);
}

#[test]
fn where_clauses() {
    assert_eq!(generics::generics_where_clauses(), "bounded on both sides");
}

#[test]
fn new_type_idiom() {
    assert_eq!(generics::generics_new_type_idiom(), (false, false));
}

#[test]
fn associated_items() {
    assert_eq!(generics::generics_associated_items(), (true, 3, 10, 7));
    let container = Container(3, 10);
    assert!(container.contains(&3, &10));
    assert!(!container.contains(&3, &11));
    assert_eq!(container.first(), 3);
    assert_eq!(container.last(), 10);
    assert_eq!(generics::difference(&container), 7);
}

#[test]
fn phantom_params() {
    assert_eq!(generics::generics_phantom_type_params(), ('Q', 'Q'));
}

#[test]
fn notes_run() {
    cargo::intro();
    cargo::dependencies();
    cargo::conventions();
    cargo::testing();
    attributes::intro();
    attributes::dead_code();
}
