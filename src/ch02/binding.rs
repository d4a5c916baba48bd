//! Bindings: place and value expressions, mutability, ownership, references.
use vstd::prelude::*;

verus! {

/// A value expression: the temporary `1`, which can be read or borrowed
/// but not assigned to.
pub fn temp() -> (r: i32)
    ensures
        r == 1,
{
    1
}

/// An immutable binding `a = 1` and a mutable one that starts at `2` and
/// is then assigned `3`: the pair `(a, b)` read at the end, `(1, 3)`.
pub fn immutable_and_mutable() -> (r: (i32, i32))
    ensures
        r == (1i32, 3i32),
{
    let a: i32 = 1;
    let mut b: i32 = 2;
    assert(b == 2);
    b = 3;
    (a, b)
}

/// Copy and move: a `&str` binding is copied and stays usable, a `String`
/// is moved into its new binding. The copied `&str` and the moved `String`,
/// both `"hello"`.
pub fn ownership() -> (r: (&'static str, String))
    ensures
        r.0@ == "hello"@,
        r.1@ == "hello"@,
{
    let place1 = "hello";
    let place2 = String::from_str("hello");
    let other = place1;
    assert(other@ == place1@);
    let other = place2;
    (place1, other)
}

/// Shared and mutable borrows: `[1, 2, 3]` read through a shared
/// reference, and a vector `[1, 2, 3]` that grows to `[1, 2, 3, 4]`
/// through a mutable one. The array and the grown vector.
pub fn reference() -> (r: ([i32; 3], Vec<i32>))
    ensures
        r.0@ == seq![1i32, 2, 3],
        r.1@ == seq![1i32, 2, 3, 4],
{
    let a: [i32; 3] = [1, 2, 3];
    let b = &a;
    assert(b@ == a@);
    let mut c: Vec<i32> = vec![1, 2, 3];
    let d = &mut c;
    d.push(4);
    let e: &i32 = &42;
    assert(*e == 42);
    assert(c@ =~= seq![1i32, 2, 3, 4]);
    (a, c)
}

/// A borrow keeps the owner's value: a reference to a binding of `42`
/// reads `42`. The value read through the reference, and the owner's.
pub fn reference2() -> (r: (i32, i32))
    ensures
        r == (42i32, 42i32),
{
    let value: i32 = 42;
    let borrowed: &i32 = &value;
    (*borrowed, value)
}

} // verus!
