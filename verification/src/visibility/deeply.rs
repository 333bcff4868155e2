//! A deeper module path, reached through a `use` alias.

pub mod nested;
