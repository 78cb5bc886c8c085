//! The front end of a small compiled language: tokens, diagnostics, the syntax tree,
//! a recursive-descent parser and the name and type resolvers.
use vstd::prelude::*;

pub mod token;
pub mod diagnostic;
pub mod ast;
pub mod parser;
pub mod resolver;

verus! {
} // verus!
