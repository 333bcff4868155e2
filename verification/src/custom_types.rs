//! Custom data types: structs, enums with and without payloads, type
//! aliases, a small linked list, and constants.

use crate::formatting::{dec_int_repr, dec_repr};
use vstd::prelude::*;
use vstd::string::StringExecFns;

verus! {

/// A unit struct, useful for generics.
pub struct Unit;

/// A tuple struct.
pub struct Pair(pub i32, pub i32);

/// A classic struct with named fields.
pub struct Point {
    pub x: i32,
    pub y: i32,
}

/// Two corners, each a [`Point`].
pub struct Rectangle {
    pub top_left: Point,
    pub bottom_right: Point,
}

/// Builds a second point from an update expression, keeping `y`.
pub fn with_x(base: &Point, x: i32) -> (r: Point)
    ensures
        r.x == x,
        r.y == base.y,
{
    Point { x, ..*base }
}

/// Destructuring a struct, an update expression, and a nested struct.
pub fn structures() -> (r: Rectangle)
    ensures
        r.top_left.x == 10,
        r.top_left.y == 4,
        r.bottom_right.x == 5,
        r.bottom_right.y == 4,
{
    let pair = Pair(1, 2);
    let Pair(integer, decimal) = pair;
    assert(integer == 1 && decimal == 2);

    let point: Point = Point { x: 10, y: 4 };
    let bottom_right_point = with_x(&point, 5);
    assert(bottom_right_point.y == 4);

    let Point { x: left_edge, y: top_edge } = point;
    Rectangle {
        top_left: Point { x: left_edge, y: top_edge },
        bottom_right: bottom_right_point,
    }
}

/// A fieldless enum counting from zero.
pub enum Number {
    Zero,
    One,
    Two,
}

/// The position of a [`Number`] variant, the value a cast to an integer
/// would give.
pub fn number_value(n: &Number) -> (r: i32)
    ensures
        r == match n {
            Number::Zero => 0int,
            Number::One => 1int,
            Number::Two => 2int,
        },
{
    match n {
        Number::Zero => 0,
        Number::One => 1,
        Number::Two => 2,
    }
}

/// A color name with a conventional 24-bit code.
pub enum ColorName {
    Red,
    Green,
    Blue,
}

/// The 24-bit code of a color: red `0xff0000`, green `0x00ff00`, blue
/// `0x0000ff`.
pub fn color_code(c: &ColorName) -> (r: u32)
    ensures
        r == match c {
            ColorName::Red => 0xff0000u32,
            ColorName::Green => 0x00ff00u32,
            ColorName::Blue => 0x0000ffu32,
        },
{
    match c {
        ColorName::Red => 0xff0000,
        ColorName::Green => 0x00ff00,
        ColorName::Blue => 0x0000ff,
    }
}

/// An event from a web page: unit variants, payload variants, and a
/// struct variant.
pub enum WebEvent {
    PageLoad,
    PageUnload,
    KeyPress(char),
    Paste(String),
    Click { x: i64, y: i64 },
}

/// The line an event inspector reports for each event.
pub open spec fn event_chars(e: WebEvent) -> Seq<char> {
    match e {
        WebEvent::PageLoad => "page loaded"@,
        WebEvent::PageUnload => "page unloaded"@,
        WebEvent::KeyPress(c) => "pressed '"@ + seq![c] + "'."@,
        WebEvent::Paste(s) => "pasted \""@ + s@ + "\"."@,
        WebEvent::Click { x, y } => "clicked at x="@ + dec_int_repr(x as int) + ", y="@
            + dec_int_repr(y as int) + "."@,
    }
}

/// Relies on std's `String::push`: appends exactly the one character.
#[verifier::external_body]
fn push_char(s: &mut String, c: char)
    ensures
        final(s)@ == old(s)@.push(c),
{
    s.push(c);
}

/// Describes an event, one line per variant, payloads interpolated.
pub fn inspect(event: &WebEvent) -> (r: String)
    ensures
        r@ == event_chars(*event),
{
    match event {
        WebEvent::PageLoad => String::from_str("page loaded"),
        WebEvent::PageUnload => String::from_str("page unloaded"),
        WebEvent::KeyPress(c) => {
            let mut r = String::from_str("pressed '");
            push_char(&mut r, *c);
            r.append("'.");
            proof {
                assert(r@ =~= event_chars(*event));
            }
            r
        },
        WebEvent::Paste(s) => {
            let mut r = String::from_str("pasted \"");
            r.append(s.as_str());
            r.append("\".");
            proof {
                assert(r@ =~= event_chars(*event));
            }
            r
        },
        WebEvent::Click { x, y } => {
            let mut r = String::from_str("clicked at x=");
            let xs = crate::formatting::render_i64(*x);
            r.append(xs.as_str());
            r.append(", y=");
            let ys = crate::formatting::render_i64(*y);
            r.append(ys.as_str());
            r.append(".");
            proof {
                assert(r@ =~= event_chars(*event));
            }
            r
        },
    }
}

/// Builds one event of each shape and checks each inspector line.
pub fn web_events() -> (r: Vec<String>)
    ensures
        r@.len() == 5,
        r@[0]@ == "pressed 'x'."@,
        r@[1]@ == "pasted \"my text\"."@,
        r@[2]@ == "clicked at x=20, y=80."@,
        r@[3]@ == "page loaded"@,
        r@[4]@ == "page unloaded"@,
{
    let pressed = WebEvent::KeyPress('x');
    let pasted = WebEvent::Paste("my text".to_owned());
    let click = WebEvent::Click { x: 20, y: 80 };
    let load = WebEvent::PageLoad;
    let unload = WebEvent::PageUnload;

    let mut r: Vec<String> = Vec::new();
    let line = inspect(&pressed);
    proof {
        reveal_strlit("pressed '");
        reveal_strlit("'.");
        reveal_strlit("pressed 'x'.");
        assert(line@ =~= "pressed 'x'."@);
    }
    r.push(line);
    let line = inspect(&pasted);
    proof {
        reveal_strlit("pasted \"");
        reveal_strlit("my text");
        reveal_strlit("\".");
        reveal_strlit("pasted \"my text\".");
        assert(line@ =~= "pasted \"my text\"."@);
    }
    r.push(line);
    let line = inspect(&click);
    proof {
        reveal_strlit("clicked at x=");
        reveal_strlit(", y=");
        reveal_strlit(".");
        reveal_strlit("clicked at x=20, y=80.");
        assert(crate::formatting::base_repr(2, 10, false) =~= seq!['2']);
        assert(crate::formatting::base_repr(8, 10, false) =~= seq!['8']);
        assert(dec_int_repr(20) =~= seq!['2', '0']);
        assert(dec_int_repr(80) =~= seq!['8', '0']);
        assert(line@ =~= "clicked at x=20, y=80."@);
    }
    r.push(line);
    let line = inspect(&load);
    r.push(line);
    let line = inspect(&unload);
    r.push(line);
    r
}

/// An operation spelled out at length.
pub enum VeryVerboseEnumOfThingsToDoWithNumbers {
    Add,
    Subtract,
}

impl VeryVerboseEnumOfThingsToDoWithNumbers {
    /// Applies the operation to the two arguments.
    pub fn run(&self, x: i32, y: i32) -> (r: i32)
        requires
            match self {
                VeryVerboseEnumOfThingsToDoWithNumbers::Add => i32::MIN <= x + y <= i32::MAX,
                VeryVerboseEnumOfThingsToDoWithNumbers::Subtract => i32::MIN <= x - y
                    <= i32::MAX,
            },
        ensures
            r == match self {
                VeryVerboseEnumOfThingsToDoWithNumbers::Add => x + y,
                VeryVerboseEnumOfThingsToDoWithNumbers::Subtract => x - y,
            },
    {
        match self {
            VeryVerboseEnumOfThingsToDoWithNumbers::Add => x + y,
            VeryVerboseEnumOfThingsToDoWithNumbers::Subtract => x - y,
        }
    }
}

/// A shorter name for the verbose operation enum.
pub type Operations = VeryVerboseEnumOfThingsToDoWithNumbers;

/// A value can be named through the alias.
pub fn type_aliases() -> (r: i32)
    ensures
        r == 7,
{
    let x = Operations::Add;
    x.run(3, 4)
}

/// A singly linked list of numbers, ending in `Nil`.
pub enum LinkedList {
    Node(u32, Box<LinkedList>),
    Nil,
}

/// The text of a list: each element, comma-separated, then `Nil`.
pub open spec fn list_chars(s: Seq<u32>) -> Seq<char>
    decreases s.len(),
{
    if s.len() == 0 {
        "Nil"@
    } else {
        dec_repr(s[0] as nat) + ", "@ + list_chars(s.drop_first())
    }
}

impl LinkedList {
    /// The elements, head first.
    pub open spec fn seq(&self) -> Seq<u32>
        decreases self,
    {
        match self {
            LinkedList::Node(elem, tail) => seq![*elem] + tail.seq(),
            LinkedList::Nil => Seq::empty(),
        }
    }

    /// An empty list.
    pub fn new() -> (r: LinkedList)
        ensures
            r.seq() == Seq::<u32>::empty(),
    {
        LinkedList::Nil
    }

    /// A new list with `elem` in front of this one.
    pub fn prepend(self, elem: u32) -> (r: LinkedList)
        ensures
            r.seq() == seq![elem] + self.seq(),
    {
        LinkedList::Node(elem, Box::new(self))
    }

    /// The number of elements.
    pub fn len(&self) -> (r: u32)
        requires
            self.seq().len() <= u32::MAX,
        ensures
            r == self.seq().len(),
        decreases self,
    {
        match self {
            LinkedList::Node(_, tail) => {
                proof {
                    assert(self.seq().len() == 1 + tail.seq().len());
                }
                1 + tail.len()
            },
            LinkedList::Nil => 0,
        }
    }

    /// The list as text, `Nil` for the empty list.
    pub fn stringify(&self) -> (r: String)
        ensures
            r@ == list_chars(self.seq()),
        decreases self,
    {
        match self {
            LinkedList::Node(elem, tail) => {
                let mut r = crate::formatting::render_u64(*elem as u64);
                proof {
                    reveal_strlit(", ");
                }
                r.append(", ");
                let rest = tail.stringify();
                r.append(rest.as_str());
                proof {
                    assert(self.seq()[0] == *elem);
                    assert(self.seq().drop_first() =~= tail.seq());
                    assert(r@ =~= list_chars(self.seq()));
                }
                r
            },
            LinkedList::Nil => String::from_str("Nil"),
        }
    }
}

/// Everything strictly above this bound counts as big.
pub const THRESHOLD: i32 = 10;

/// A number is big exactly when it exceeds [`THRESHOLD`].
pub fn is_big(n: i32) -> (r: bool)
    ensures
        r == (n > THRESHOLD),
{
    n > THRESHOLD
}

} // verus!
