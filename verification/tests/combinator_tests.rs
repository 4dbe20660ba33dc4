use rust2fun::combinator::{
    apply, apply_to, converge, id, if_else, noop, noop1, noop2, noop12, on, substitution, tuple12,
    tuple2, tuple3,
};

#[test]
fn id_returns_its_argument() {
    assert_eq!(id(1), 1);
    assert_eq!(id("a"), "a");
    assert_eq!(Some(1).map(id), Some(1));
}

#[test]
fn tuples_keep_the_order_of_the_arguments() {
    assert_eq!(tuple2(1, "a"), (1, "a"));
    assert_eq!(tuple3(1, "a", 2.5), (1, "a", 2.5));
    assert_eq!(
        tuple12(1, 2, 3, 4, 5, 6, 7, 8, 9, 10, 11, 12),
        (1, 2, 3, 4, 5, 6, 7, 8, 9, 10, 11, 12)
    );
}

#[test]
fn noops_return_unit() {
    assert_eq!(noop(), ());
    assert_eq!(noop1(1), ());
    assert_eq!(noop2(1, "a"), ());
    assert_eq!(noop12(1, 2, 3, 4, 5, 6, 7, 8, 9, 10, 11, 12), ());
    assert_eq!(Some(1).map(noop1), Some(()));
}

#[test]
fn apply_and_apply_to_call_the_function() {
    assert_eq!(apply(|x| x + 1, 2), 3);
    assert_eq!(apply_to(2, |x| x + 1), 3);
}

#[test]
fn substitution_hands_the_argument_to_both() {
    let generate = |s: &str, l: usize| format!("The string \"{}\" has a length of {}", s, l);
    let actual = substitution(generate, str::len, "Hello, World!");
    assert_eq!("The string \"Hello, World!\" has a length of 13", actual);
}

#[test]
fn converge_merges_two_branches() {
    let divide = |x: u32, y: usize| x / (y as u32);
    let sum = |x: &Vec<u32>| x.iter().sum();
    let actual = converge(divide, sum, Vec::len, &vec![1, 2, 3]);
    assert_eq!(2, actual);
}

#[test]
fn on_transforms_both_arguments() {
    let equals = |x: String, y: String| x == y;
    assert!(on(equals, str::to_lowercase, "Str", "STR"));
    assert_eq!(on(|a: i32, b: i32| a - b, |x: i32| x * 10, 5, 3), 20);
}

#[test]
fn if_else_runs_one_branch() {
    let is_even = |x: &i32| x & 1 == 0;
    assert_eq!(if_else(is_even, |x| x / 2, |x| (x + 1) / 2, 7), 4);
    assert_eq!(if_else(is_even, |x| x / 2, |x| (x + 1) / 2, 8), 4);
    let mut ran = Vec::new();
    let r = if_else(|_: &i32| true, |x| { ran.push("true"); x }, |x: i32| x + 100, 1);
    assert_eq!(r, 1);
    assert_eq!(ran, vec!["true"]);
}
