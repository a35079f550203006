use parser_combinators::{example, fail, succeed, Parser};

#[test]
fn sum_of_two_constants_leaves_input_untouched() {
    let parser = succeed(42).seq(succeed(24)).map(|(a, b)| a + b);
    assert_eq!(parser.parse("example".to_string()), Ok((66, "example".to_string())));
}

#[test]
fn failing_first_parser_fails_the_sequence() {
    let parser = fail::<i32>("bad".to_string()).seq(succeed(24));
    assert_eq!(parser.parse("x".to_string()), Err("bad".to_string()));
}

#[test]
fn example_gives_the_sum_and_the_text() {
    assert_eq!(example(), (66, "example".to_string()));
}

#[test]
fn a_failure_deep_in_a_tree_comes_out_unchanged() {
    let parser = succeed(1)
        .seq(succeed(2).seq(fail::<i32>("deep".to_string())).map(|(a, b)| a + b))
        .map(|(a, b)| a * b);
    assert_eq!(parser.parse("text".to_string()), Err("deep".to_string()));
}

#[test]
fn the_first_failure_wins() {
    let parser = fail::<i32>("one".to_string())
        .seq(fail::<i32>("two".to_string()))
        .seq(fail::<i32>("three".to_string()));
    assert_eq!(parser.parse("text".to_string()), Err("one".to_string()));
}
