//! Struct visibility: a struct with a public field is open; one with a
//! private field can only be made through its constructor.

use vstd::prelude::*;

verus! {

/// A box anyone may look into.
pub struct OpenBox<T> {
    pub contents: T,
}

/// A box whose contents are private.
pub struct ClosedBox<T> {
    contents: T,
}

impl<T> ClosedBox<T> {
    /// What the box holds, visible to contracts though not to code.
    pub closed spec fn spec_contents(&self) -> T {
        self.contents
    }

    /// The only way to make a closed box.
    pub fn new(contents: T) -> (r: ClosedBox<T>)
        ensures
            r.spec_contents() == contents,
    {
        ClosedBox { contents }
    }
}

} // verus!
