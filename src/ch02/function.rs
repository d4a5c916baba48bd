//! Functions: definitions, lexical scope, functions as values, closures.
use vstd::prelude::*;
use crate::decimal::{decimal, i32_to_string};

verus! {

/// What `fizz_buzz(num)` answers: `fizzbuzz` for multiples of 15, `fizz`
/// for other multiples of 3, `buzz` for other multiples of 5, and the
/// number in decimal otherwise.
pub open spec fn fizz_buzz_text(num: int) -> Seq<char> {
    if num % 15 == 0 {
        "fizzbuzz"@
    } else if num % 3 == 0 {
        "fizz"@
    } else if num % 5 == 0 {
        "buzz"@
    } else {
        decimal(num)
    }
}

/// A function definition: the fizzbuzz word for `num`.
pub fn fizz_buzz(num: i32) -> (r: String)
    ensures
        r@ == fizz_buzz_text(num as int),
{
    if num % 15 == 0 {
        String::from_str("fizzbuzz")
    } else if num % 3 == 0 {
        String::from_str("fizz")
    } else if num % 5 == 0 {
        String::from_str("buzz")
    } else {
        i32_to_string(num)
    }
}

/// Shadowing and lexical scope: a `let` hides an earlier binding of the
/// same name, and a binding made in an inner block ends with that block.
pub fn lexical_scope() {
    let v = "hello world!";
    assert(v@ == "hello world!"@);
    let v = "hello Rust!";
    assert(v@ == "hello Rust!"@);
    {
        let v = "hello World!";
        assert(v@ == "hello World!"@);
    }
    assert(v@ == "hello Rust!"@);
}

/// A function taken as a value: applies `op` to `a` and `b`.
pub fn math<F: Fn(i32, i32) -> i32>(op: F, a: i32, b: i32) -> (r: i32)
    requires
        op.requires((a, b)),
    ensures
        op.ensures((a, b), r),
{
    op(a, b)
}

/// `a + b`, which must fit in an `i32`.
pub fn sum(a: i32, b: i32) -> (r: i32)
    requires
        i32::MIN <= a + b <= i32::MAX,
    ensures
        r == a + b,
{
    a + b
}

/// `a * b`, which must fit in an `i32`.
pub fn product(a: i32, b: i32) -> (r: i32)
    requires
        i32::MIN <= a * b <= i32::MAX,
    ensures
        r == a * b,
{
    a * b
}

/// Always `true`.
pub fn is_true() -> (r: bool)
    ensures
        r,
{
    true
}

/// A function returned as a value: `is_true`.
pub fn true_maker() -> (r: impl Fn() -> bool)
    ensures
        r.requires(()),
        forall|b: bool| r.ensures((), b) ==> b,
{
    is_true
}

/// The length used for the zero-filled array of the examples: 5.
pub fn init_len() -> (r: usize)
    ensures
        r == 5,
{
    5
}

/// A plain function sees only its arguments; it cannot capture.
fn add_without_capture(i: i32, j: i32) -> (r: i32)
    requires
        i32::MIN <= i + j <= i32::MAX,
    ensures
        r == i + j,
{
    i + j
}

/// A plain function against two closures that capture `out = 42`, each
/// applied to `1` and `2`: `(3, 45, 45)`.
pub fn closure() -> (r: (i32, i32, i32))
    ensures
        r == (3i32, 45i32, 45i32),
{
    let out: i32 = 42;
    let closure_annotated = |i: i32, j: i32| -> (k: i32)
        requires
            i32::MIN <= i + j <= i32::MAX,
            i32::MIN <= i + j + out <= i32::MAX,
        ensures
            k == i + j + out,
        { i + j + out };
    let closure_inferred = |i: i32, j: i32| -> (k: i32)
        requires
            i32::MIN <= i + j <= i32::MAX,
            i32::MIN <= i + j + out <= i32::MAX,
        ensures
            k == i + j + out,
        { i + j + out };
    let i: i32 = 1;
    let j: i32 = 2;
    (add_without_capture(i, j), closure_annotated(i, j), closure_inferred(i, j))
}

/// A closure taken as an argument: calls `op` once.
pub fn closure_math<F: Fn() -> i32>(op: F) -> (r: i32)
    requires
        op.requires(()),
    ensures
        op.ensures((), r),
{
    op()
}

/// A closure returned by value, which has moved in its factor `2`:
/// it doubles any `j` whose double fits in an `i32`.
pub fn two_times_impl() -> (r: impl Fn(i32) -> i32)
    ensures
        forall|j: i32| i32::MIN <= 2 * j <= i32::MAX ==> r.requires((j,)),
        forall|j: i32, k: i32| r.ensures((j,), k) ==> k == 2 * j,
{
    let i: i32 = 2;
    move |j: i32| -> (k: i32)
        requires
            i32::MIN <= 2 * j <= i32::MAX,
        ensures
            k == 2 * j,
        { j * i }
}

} // verus!
