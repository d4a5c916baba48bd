//! Language essentials: expressions and bindings, control flow, functions
//! and closures.
use vstd::prelude::*;

pub mod binding;
pub mod control_flow;
pub mod function;

verus! {

/// Everything is an expression: `let` statements, then the call
/// `sum(40, 2)`, whose value is 42.
pub fn answer() -> () {
    let a: i32 = 40;
    let b: i32 = 2;
    let r = sum(a, b);
    assert(r == 42);
}

/// `a + b` as the block's final expression; it must fit in an `i32`.
pub fn sum(a: i32, b: i32) -> (r: i32)
    requires
        i32::MIN <= a + b <= i32::MAX,
    ensures
        r == a + b,
{
    a + b
}

} // verus!
