//! Small, self-contained lessons on the language, written for Verus.
//!
//! Each module covers one chapter: primitive types, custom data types,
//! bindings, casts, conversions, expressions, control flow, functions
//! and closures, visibility, generics, and scoping. Teaching code
//! usually prints a value and notes the expected output in a comment
//! for the reader to check by eye; these modules state the expected
//! value as a contract and let the verifier check it.

pub mod attributes;
pub mod bindings;
pub mod cargo;
pub mod casting;
pub mod control_flow;
pub mod conversion;
pub mod expressions;
pub mod custom_types;
pub mod formatting;
pub mod functions;
pub mod generics;
pub mod hello;
pub mod primitives;
pub mod scoping;
pub mod visibility;
