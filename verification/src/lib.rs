//! A collection of libraries for working with the syntax trees of a
//! compiler.

pub mod railroad;
