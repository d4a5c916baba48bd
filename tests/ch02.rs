use rust_programming_of_zhd::ch02::binding::{
    immutable_and_mutable, ownership, reference, reference2, temp,
};
use rust_programming_of_zhd::ch02::control_flow::{
    for_fizzbuzz, if_expr, if_true, loop_fizzbuzz, loop_match_pop, match_expr, while_fizzbuzz,
    while_true,
};
use rust_programming_of_zhd::ch02::function::{
    closure, closure_math, fizz_buzz, init_len, is_true, lexical_scope, math, product, sum,
    true_maker, two_times_impl,
};
use rust_programming_of_zhd::ch02::{answer, sum as answer_sum};
use rust_programming_of_zhd::decimal::{i32_to_string, unsigned_to_string};

#[test]
fn fizz_buzz_words() {
    assert_eq!(fizz_buzz(15), "fizzbuzz".to_string());
    assert_eq!(fizz_buzz(3), "fizz".to_string());
    assert_eq!(fizz_buzz(5), "buzz".to_string());
    assert_eq!(fizz_buzz(13), "13".to_string());
}

#[test]
fn fizz_buzz_edges() {
    assert_eq!(fizz_buzz(0), "fizzbuzz");
    assert_eq!(fizz_buzz(-7), "-7");
    assert_eq!(fizz_buzz(-9), "fizz");
    assert_eq!(fizz_buzz(-10), "buzz");
    assert_eq!(fizz_buzz(-30), "fizzbuzz");
    assert_eq!(fizz_buzz(i32::MAX), "2147483647");
    assert_eq!(fizz_buzz(i32::MIN), "-2147483648");
}

#[test]
fn decimal_text_matches_to_string() {
    for n in [0, 1, 9, 10, 99, 100, 101, 12345, -1, -10, -100, i32::MAX, i32::MIN] {
        assert_eq!(i32_to_string(n), n.to_string());
    }
    for n in [0u32, 7, 10, 1000, 4294967295] {
        assert_eq!(unsigned_to_string(n), n.to_string());
    }
}

#[test]
fn answer_is_forty_two() {
    answer();
    assert_eq!(answer_sum(40, 2), 42);
    assert_eq!(answer_sum(-5, 3), -2);
}

#[test]
fn binding_values() {
    assert_eq!(temp(), 1);
    assert_eq!(immutable_and_mutable(), (1, 3));
    let (copied, moved) = ownership();
    assert_eq!(copied, "hello");
    assert_eq!(moved, "hello".to_string());
    let (array, grown) = reference();
    assert_eq!(array, [1, 2, 3]);
    assert_eq!(grown, vec![1, 2, 3, 4]);
    assert_eq!(reference2(), (42, 42));
}

#[test]
fn if_expression_value() {
    assert_eq!(if_expr(), 6);
}

fn expected_fizzbuzz_lines() -> Vec<String> {
    let mut lines = Vec::new();
    for n in 1..101 {
        if n % 15 == 0 {
            lines.push("fizzbuzz".to_string());
        } else if n % 3 == 0 {
            lines.push("fizz".to_string());
        } else if n % 5 == 0 {
            lines.push("buzz".to_string());
        } else {
            lines.push(format!("{}", n));
        }
    }
    lines
}

#[test]
fn fizzbuzz_loops_agree() {
    let expected = expected_fizzbuzz_lines();
    assert_eq!(while_fizzbuzz(), expected);
    assert_eq!(loop_fizzbuzz(), expected);
    assert_eq!(for_fizzbuzz(), expected);
    let lines = for_fizzbuzz();
    assert_eq!(lines.len(), 100);
    assert_eq!(lines[0], "1");
    assert_eq!(lines[2], "fizz");
    assert_eq!(lines[4], "buzz");
    assert_eq!(lines[14], "fizzbuzz");
    assert_eq!(lines[99], "buzz");
}

#[test]
fn returning_loops_and_ifs() {
    assert_eq!(while_true(5), 6);
    assert_eq!(if_true(5), 6);
    assert_eq!(while_true(-1), 0);
    assert_eq!(if_true(i32::MAX - 1), i32::MAX);
}

#[test]
fn match_lines() {
    assert_eq!(match_expr(0), "Origin");
    assert_eq!(match_expr(1), "All");
    assert_eq!(match_expr(3), "All");
    assert_eq!(match_expr(4), "Common");
    assert_eq!(match_expr(5), "Bad Luck");
    assert_eq!(match_expr(7), "Bad Luck");
    assert_eq!(match_expr(13), "Bad Luck");
    assert_eq!(match_expr(42), "Answer is 42");
    assert_eq!(match_expr(-1), "Common");
}

#[test]
fn pops_in_reverse() {
    assert_eq!(loop_match_pop(), vec![5, 4, 3, 2, 1]);
}

#[test]
fn shadowing_holds() {
    lexical_scope();
}

#[test]
fn functions_as_values() {
    let a = 2;
    let b = 3;
    assert_eq!(math(sum, a, b), 5);
    assert_eq!(math(product, a, b), 6);
    assert_eq!(true_maker()(), true);
    assert!(is_true());
    assert_eq!(init_len(), 5);
    assert_eq!(vec![0; init_len()], vec![0, 0, 0, 0, 0]);
}

#[test]
fn closures() {
    assert_eq!(closure(), (3, 45, 45));
    let a = 2;
    let b = 3;
    assert_eq!(closure_math(|| a + b), 5);
    assert_eq!(closure_math(|| a * b), 6);
    let double = two_times_impl();
    assert_eq!(double(2), 4);
    assert_eq!(double(-21), -42);
}
