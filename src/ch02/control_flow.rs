//! Control flow: `if`, `while`, `loop`, `for` and `match` are expressions.
use vstd::prelude::*;
use crate::ch02::function::{fizz_buzz, fizz_buzz_text};
use crate::decimal::i32_to_string;

verus! {

/// The `if` expression of the examples: `10 * n` for `-10 < n < 10`,
/// `n / 2` otherwise.
pub open spec fn if_value(n: int) -> int {
    if -10 < n < 10 {
        10 * n
    } else {
        n / 2
    }
}

/// `if` as an expression, taken at `n = 13`: `13 / 2`, that is 6.
pub fn if_expr() -> (r: i32)
    ensures
        r == if_value(13),
        r == 6,
{
    let n: i32 = 13;
    if n < 10 && n > -10 {
        10 * n
    } else {
        n / 2
    }
}

/// The hundred fizzbuzz lines that the loops below produce: line `i` is
/// the fizzbuzz word of `i + 1`.
pub open spec fn fizzbuzz_lines(r: Seq<String>) -> bool {
    &&& r.len() == 100
    &&& forall|i: int| 0 <= i < 100 ==> (#[trigger] r[i])@ == fizz_buzz_text(i + 1)
}

/// Fizzbuzz for 1 to 100 with a `while` loop.
pub fn while_fizzbuzz() -> (r: Vec<String>)
    ensures
        fizzbuzz_lines(r@),
{
    let mut lines: Vec<String> = Vec::new();
    let mut n: i32 = 1;
    while n < 101
        invariant
            1 <= n <= 101,
            lines.len() == n - 1,
            forall|i: int| 0 <= i < lines.len() ==> (#[trigger] lines@[i])@ == fizz_buzz_text(i + 1),
        decreases 101 - n,
    {
        lines.push(fizz_buzz(n));
        n += 1;
    }
    lines
}

/// Fizzbuzz for 1 to 100 with `loop` and `break`.
pub fn loop_fizzbuzz() -> (r: Vec<String>)
    ensures
        fizzbuzz_lines(r@),
{
    let mut lines: Vec<String> = Vec::new();
    let mut n: i32 = 1;
    loop
        invariant
            1 <= n <= 101,
            lines.len() == n - 1,
            forall|i: int| 0 <= i < lines.len() ==> (#[trigger] lines@[i])@ == fizz_buzz_text(i + 1),
        ensures
            lines.len() == 100,
            forall|i: int| 0 <= i < lines.len() ==> (#[trigger] lines@[i])@ == fizz_buzz_text(i + 1),
        decreases 101 - n,
    {
        if n >= 101 {
            break;
        }
        lines.push(fizz_buzz(n));
        n += 1;
    }
    lines
}

/// Fizzbuzz for 1 to 100 with a `for` loop over a range.
pub fn for_fizzbuzz() -> (r: Vec<String>)
    ensures
        fizzbuzz_lines(r@),
{
    let mut lines: Vec<String> = Vec::new();
    for n in 1..101i32
        invariant
            lines.len() == n - 1,
            forall|i: int| 0 <= i < lines.len() ==> (#[trigger] lines@[i])@ == fizz_buzz_text(i + 1),
    {
        lines.push(fizz_buzz(n));
    }
    lines
}

/// `loop` in place of `while true`: the body returns at once, `x + 1`.
pub fn while_true(x: i32) -> (r: i32)
    requires
        x < i32::MAX,
    ensures
        r == x + 1,
{
    loop
        invariant
            x < i32::MAX,
        decreases 1int,
    {
        return x + 1;
    }
}

/// `if true` with an `else` path after it: the `if` returns `x + 1`.
pub fn if_true(x: i32) -> (r: i32)
    requires
        x < i32::MAX,
    ensures
        r == x + 1,
{
    if true {
        return x + 1;
    }
    x
}

/// The line that `match_expr` picks for `number`: a single value, a range,
/// alternatives, a binding with `@`, and the wildcard.
pub open spec fn match_text(number: int) -> Seq<char> {
    if number == 0 {
        "Origin"@
    } else if 1 <= number <= 3 {
        "All"@
    } else if number == 5 || number == 7 || number == 13 {
        "Bad Luck"@
    } else if number == 42 {
        "Answer is 42"@
    } else {
        "Common"@
    }
}

/// Pattern matching on an integer: the line for `number`.
pub fn match_expr(number: i32) -> (r: String)
    ensures
        r@ == match_text(number as int),
{
    match number {
        0 => String::from_str("Origin"),
        1..=3 => String::from_str("All"),
        5 | 7 | 13 => String::from_str("Bad Luck"),
        n @ 42 => {
            let mut s = String::from_str("Answer is ");
            let d = i32_to_string(n);
            s.append(d.as_str());
            proof {
                reveal_strlit("Answer is ");
                reveal_strlit("Answer is 42");
                reveal_with_fuel(crate::decimal::digits, 2);
                assert(s@ =~= "Answer is 42"@);
            }
            s
        },
        _ => String::from_str("Common"),
    }
}

/// `loop` with `match` on `Vec::pop`: pops `[1, 2, 3, 4, 5]` until it is
/// empty, in the order popped, `[5, 4, 3, 2, 1]`.
pub fn loop_match_pop() -> (r: Vec<i32>)
    ensures
        r@ == seq![5i32, 4, 3, 2, 1],
{
    let mut v: Vec<i32> = vec![1, 2, 3, 4, 5];
    let mut popped: Vec<i32> = Vec::new();
    let ghost start = v@;
    let ghost backwards = seq![5i32, 4, 3, 2, 1];
    assert(start =~= seq![1i32, 2, 3, 4, 5]);
    loop
        invariant
            start =~= seq![1i32, 2, 3, 4, 5],
            backwards =~= seq![5i32, 4, 3, 2, 1],
            v.len() <= 5,
            v@ == start.subrange(0, v.len() as int),
            popped@ == backwards.subrange(0, 5 - v.len()),
        ensures
            popped@ == backwards,
        decreases v.len(),
    {
        match v.pop() {
            Some(x) => {
                assert(x == backwards[5 - v.len() - 1]);
                popped.push(x);
                assert(popped@ =~= backwards.subrange(0, 5 - v.len()));
            },
            None => break,
        }
    }
    popped
}

} // verus!
