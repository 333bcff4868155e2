//! Notes on the package manager: what it does, how projects are laid
//! out, and where tests live. These functions carry the notes as
//! documentation and compute nothing.

use vstd::prelude::*;

verus! {

/// The package manager handles dependencies, knows the package
/// registry, and is aware of unit tests and benchmarks.
pub fn intro() {
}

/// A new project starts from one command: one form for a binary, one
/// for a library.
pub fn dependencies() {
}

/// Extra binaries conventionally live in a `bin/` directory beside the
/// main source file.
pub fn conventions() {
}

/// Unit tests sit in the modules they test; integration tests get a
/// `tests/` directory of their own.
pub fn testing() {
}

} // verus!
