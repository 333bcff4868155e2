use lessons::control_flow::{
    self, AgeBracket, AnswerKind, ArrayMatch, FooEnum, Grid, GridMatch, PairKind, Shade,
    TripleMatch,
};
use lessons::custom_types::{
    self, ColorName, LinkedList, Number, Operations, VeryVerboseEnumOfThingsToDoWithNumbers,
    WebEvent,
};

#[test]
fn structures() {
    let rectangle = custom_types::structures();
    assert_eq!(rectangle.top_left.x, 10);
    assert_eq!(rectangle.top_left.y, 4);
    assert_eq!(rectangle.bottom_right.x, 5);
    assert_eq!(rectangle.bottom_right.y, 4);
}

#[test]
fn enum_values() {
    assert_eq!(custom_types::number_value(&Number::Zero), 0);
    assert_eq!(custom_types::number_value(&Number::One), 1);
    assert_eq!(custom_types::number_value(&Number::Two), 2);
    assert_eq!(custom_types::color_code(&ColorName::Red), 0xff0000);
    assert_eq!(custom_types::color_code(&ColorName::Green), 0x00ff00);
    assert_eq!(custom_types::color_code(&ColorName::Blue), 0x0000ff);
}

#[test]
fn web_events() {
    let lines = custom_types::web_events();
    assert_eq!(lines.len(), 5);
    assert_eq!(lines[0], "pressed 'x'.");
    assert_eq!(lines[1], "pasted \"my text\".");
    assert_eq!(lines[2], "clicked at x=20, y=80.");
    assert_eq!(lines[3], "page loaded");
    assert_eq!(lines[4], "page unloaded");
}

#[test]
fn inspect_each_variant() {
    assert_eq!(custom_types::inspect(&WebEvent::KeyPress('q')), "pressed 'q'.");
    assert_eq!(
        custom_types::inspect(&WebEvent::Click { x: -5, y: 0 }),
        "clicked at x=-5, y=0."
    );
    assert_eq!(custom_types::inspect(&WebEvent::Paste(String::new())), "pasted \"\".");
}

#[test]
fn verbose_enum_runs() {
    let add = VeryVerboseEnumOfThingsToDoWithNumbers::Add;
    let subtract = VeryVerboseEnumOfThingsToDoWithNumbers::Subtract;
    assert_eq!(add.run(3, 4), 7);
    assert_eq!(subtract.run(3, 4), -1);
    let aliased = Operations::Add;
    assert_eq!(aliased.run(1, 1), 2);
    assert_eq!(custom_types::type_aliases(), 7);
}

#[test]
fn linked_list() {
    let mut list = LinkedList::new();
    assert_eq!(list.len(), 0);
    assert_eq!(list.stringify(), "Nil");

    list = list.prepend(1);
    list = list.prepend(2);
    list = list.prepend(3);
    assert_eq!(list.len(), 3);
    assert_eq!(list.stringify(), "3, 2, 1, Nil");
}

#[test]
fn constants() {
    assert!(custom_types::is_big(16));
    assert!(!custom_types::is_big(10));
    assert_eq!(custom_types::THRESHOLD, 10);
}

#[test]
fn if_else_scales() {
    assert_eq!(control_flow::if_else(), 50);
    assert_eq!(control_flow::scale(5), 50);
    assert_eq!(control_flow::scale(-9), -90);
    assert_eq!(control_flow::scale(42), 21);
    assert_eq!(control_flow::scale(-11), -5);
}

#[test]
fn loops_and_breaks() {
    assert_eq!(control_flow::loop_and_break(), 5);
    assert_eq!(control_flow::nesting_and_labels(), (1, 1));
    assert_eq!(control_flow::returning_from_loops(), 20);
    assert_eq!(control_flow::while_let(), 7);
}

#[test]
fn fizzbuzz_sixteen() {
    let lines = control_flow::while_loops();
    let expected = vec![
        "1", "2", "fizz", "4", "buzz", "fizz", "7", "8", "fizz", "buzz", "11", "fizz", "13",
        "14", "fizzbuzz",
    ];
    assert_eq!(lines.len(), expected.len());
    for (line, want) in lines.iter().zip(expected.iter()) {
        assert_eq!(line, want);
    }
}

#[test]
fn fizzbuzz_hundred() {
    let lines = control_flow::for_loops();
    assert_eq!(lines.len(), 100);
    assert_eq!(lines[0], "1");
    assert_eq!(lines[14], "fizzbuzz");
    assert_eq!(lines[99], "buzz");
    assert_eq!(lines[89], "fizzbuzz");
    assert_eq!(lines[97], "98");
}

#[test]
fn greetings() {
    assert_eq!(control_flow::greeting_line("Bob"), "Hello Bob");
    assert_eq!(control_flow::greeting_line("Frank"), "Hello Frank");
    assert_eq!(
        control_flow::greeting_line("Ferris"),
        "There is a rustacean among us!"
    );

    let mut names = vec!["Bob", "Frank", "Ferris"];
    control_flow::rewrite_names(&mut names);
    assert_eq!(
        names,
        vec!["Hello", "Hello", "There is a rustacean among us!"]
    );
}

#[test]
fn match_classifies() {
    assert_eq!(control_flow::classify(1), "One!");
    assert_eq!(control_flow::classify(13), "This is a prime");
    assert_eq!(control_flow::classify(17), "A teen");
    assert_eq!(control_flow::classify(4), "Ain't special");
    assert_eq!(control_flow::boolean_to_binary(true), 1);
    assert_eq!(control_flow::boolean_to_binary(false), 0);
}

#[test]
fn destructuring_arms() {
    assert!(matches!(
        control_flow::triple_match((0, -2, 3)),
        TripleMatch::FirstZero { y: -2, z: 3 }
    ));
    assert!(matches!(
        control_flow::triple_match((1, 9, 9)),
        TripleMatch::FirstOne
    ));
    assert!(matches!(
        control_flow::triple_match((2, 0, 0)),
        TripleMatch::Other
    ));

    assert!(matches!(
        control_flow::array_match([-1, 2, -3]),
        ArrayMatch::General { first: -1, middle: 2, last: -3 }
    ));
    assert!(matches!(
        control_flow::array_match([0, 8, 9]),
        ArrayMatch::FirstZero { second: 8, third: 9 }
    ));
    assert!(matches!(
        control_flow::array_match([3, 8, 9]),
        ArrayMatch::FirstThree { second: 8, tail: 9 }
    ));

    let color = Shade::RGB(122, 17, 40);
    assert!(matches!(color, Shade::RGB(122, 17, 40)));

    assert!(matches!(
        control_flow::grid_match(Grid { x: (0, 1), y: 2 }),
        GridMatch::YTwo { i: (0, 1) }
    ));
    assert!(matches!(
        control_flow::grid_match(Grid { x: (1, 7), y: 3 }),
        GridMatch::XStartsOne { b: 7, y: 3 }
    ));

    assert_eq!(control_flow::match_destructuring(), (1, 13));
}

#[test]
fn add_ten_through_reference() {
    let mut value = 3;
    control_flow::add_ten(&mut value);
    assert_eq!(value, 13);
}

#[test]
fn guard_arms() {
    assert!(matches!(control_flow::pair_kind((2, -2)), PairKind::Antimatter));
    assert!(matches!(control_flow::pair_kind((3, 3)), PairKind::Twins));
    assert!(matches!(control_flow::pair_kind((5, 1)), PairKind::FirstOdd));
    assert!(matches!(
        control_flow::pair_kind((-4, 1)),
        PairKind::NoCorrelation
    ));
    assert!(matches!(
        control_flow::pair_kind((-3, 1)),
        PairKind::NoCorrelation
    ));
    assert_eq!(control_flow::unsigned_kind(0), "Zero");
    assert_eq!(control_flow::unsigned_kind(4), "Greater than zero");
}

#[test]
fn binding_arms() {
    assert!(matches!(control_flow::age_bracket(0), AgeBracket::Baby));
    assert!(matches!(control_flow::age_bracket(7), AgeBracket::Child(7)));
    assert!(matches!(control_flow::age_bracket(19), AgeBracket::Teen(19)));
    assert!(matches!(control_flow::age_bracket(33), AgeBracket::Old(33)));
    assert!(matches!(
        control_flow::answer_kind(Some(42)),
        AnswerKind::TheAnswer
    ));
    assert!(matches!(
        control_flow::answer_kind(Some(7)),
        AnswerKind::NotInteresting(7)
    ));
    assert!(matches!(control_flow::answer_kind(None), AnswerKind::Nothing));
}

#[test]
fn if_let_branches() {
    assert_eq!(control_flow::if_let(), (true, false, false, true, true));
    let b = FooEnum::Qux(100);
    assert!(matches!(b, FooEnum::Qux(100)));
    let a = FooEnum::Bar;
    assert!(matches!(a, FooEnum::Bar));
}
