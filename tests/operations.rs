use counter_cli::config::{Cli, OpArgs, Operations};
use counter_cli::ops::{decrement, increment, run_operation, split};
use counter_cli::report::{operation_message, render_trace, verbosity_message};
use counter_cli::text::decimal_string;

fn op(kind: &str, number: i32) -> Option<Operations> {
    let a = OpArgs { number };
    match kind {
        "increment" => Some(Operations::Increment(a)),
        "decrement" => Some(Operations::Decrement(a)),
        _ => Some(Operations::Split(a)),
    }
}

#[test]
fn increment_emits_zero_to_n_minus_one() {
    let t = increment(5, 1);
    assert_eq!(t.emitted, vec![0, 1, 2, 3, 4]);
    assert_eq!(t.done, 5);
}

#[test]
fn increment_quiet_emits_nothing() {
    let t = increment(5, 0);
    assert!(t.emitted.is_empty());
    assert_eq!(t.done, 5);
}

#[test]
fn increment_of_zero_and_negative() {
    let t = increment(0, 2);
    assert!(t.emitted.is_empty());
    assert_eq!(t.done, 0);
    let t = increment(-4, 2);
    assert!(t.emitted.is_empty());
    assert_eq!(t.done, -4);
    assert_eq!(operation_message(&op("increment", -4), 1), "-4 done!");
}

#[test]
fn decrement_emits_n_down_to_one() {
    let t = decrement(4, 3);
    assert_eq!(t.emitted, vec![4, 3, 2, 1]);
    assert_eq!(t.done, 0);
    assert_eq!(operation_message(&op("decrement", 4), 3), "4..3..2..1..0 done!");
}

#[test]
fn decrement_of_zero_and_negative() {
    assert!(decrement(0, 1).emitted.is_empty());
    assert!(decrement(-3, 1).emitted.is_empty());
    assert_eq!(operation_message(&op("decrement", -3), 1), "0 done!");
}

#[test]
fn split_emits_halvings() {
    let t = split(10, 1);
    assert_eq!(t.emitted, vec![10, 5, 2, 1]);
    assert_eq!(t.done, 0);
    // floor(log2(1000)) + 1 == 10
    assert_eq!(split(1000, 1).emitted.len(), 10);
    assert_eq!(split(1, 1).emitted, vec![1]);
    assert_eq!(split(i32::MAX, 1).emitted.len(), 31);
}

#[test]
fn split_of_zero_and_negative() {
    assert!(split(0, 1).emitted.is_empty());
    assert!(split(-7, 1).emitted.is_empty());
    assert_eq!(operation_message(&op("split", -7), 1), "0 done!");
}

#[test]
fn increment_three_end_to_end() {
    let out = operation_message(&op("increment", 3), 1);
    assert_eq!(out, "0..1..2..3 done!");
    assert!(out.contains("0..1..2.."));
    assert!(out.ends_with("3 done!"));
}

#[test]
fn split_ten_end_to_end() {
    assert_eq!(operation_message(&op("split", 10), 1), "10..5..2..1..0 done!");
    assert_eq!(operation_message(&op("split", 10), 0), "0 done!");
}

#[test]
fn no_operation_is_nop() {
    assert!(run_operation(&None, 1).is_none());
    assert_eq!(operation_message(&None, 1), "NOP");
}

#[test]
fn run_operation_dispatches() {
    let t = run_operation(&op("decrement", 2), 1).unwrap();
    assert_eq!(t.emitted, vec![2, 1]);
    assert_eq!(render_trace(&t), "2..1..0 done!");
}

#[test]
fn verbosity_levels() {
    assert_eq!(verbosity_message(0), "Basic logging");
    assert_eq!(verbosity_message(1), "Detailed logging");
    assert_eq!(verbosity_message(2), "All logging");
    assert_eq!(verbosity_message(3), "You can't get crazier than this");
    assert_eq!(verbosity_message(255), "You can't get crazier than this");
}

#[test]
fn decimal_rendering() {
    assert_eq!(decimal_string(0), "0");
    assert_eq!(decimal_string(7), "7");
    assert_eq!(decimal_string(1234), "1234");
    assert_eq!(decimal_string(-56), "-56");
    assert_eq!(decimal_string(i32::MAX), "2147483647");
    assert_eq!(decimal_string(i32::MIN), "-2147483648");
}

#[test]
fn configuration_equality() {
    let a = Cli {
        verbosity: 1,
        flag: true,
        args: Some(vec!["x".to_string(), "y".to_string()]),
        operation: op("split", 10),
    };
    let b = Cli {
        verbosity: 1,
        flag: true,
        args: Some(vec!["x".to_string(), "y".to_string()]),
        operation: op("split", 10),
    };
    assert!(a == b);
    let c = Cli { args: Some(vec!["x".to_string()]), ..b };
    assert!(a != c);
    let d = Cli { verbosity: 1, flag: true, args: None, operation: op("split", 10) };
    assert!(c != d);
    let e = Cli { verbosity: 1, flag: true, args: None, operation: op("increment", 10) };
    assert!(d != e);
    let f = Cli { verbosity: 1, flag: true, args: None, operation: None };
    assert!(e != f);
    let g = Cli { verbosity: 1, flag: true, args: Some(vec!["x".to_string(), "z".to_string()]), operation: op("split", 10) };
    assert!(a != g);
}
