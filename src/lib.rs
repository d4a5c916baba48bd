//! Annotated examples of the language's core rules: place and value
//! expressions, mutability, ownership and borrowing, control-flow
//! expressions, pattern matching, functions as values and closures. Each
//! example states what it computes in its contract.
use vstd::prelude::*;

pub mod ch02;
pub mod decimal;

verus! {

} // verus!
