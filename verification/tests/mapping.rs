use parser_combinators::{fail, succeed, Parser};
use std::cell::Cell;

/// Reads one character, or fails at the end of the input.
struct OneChar;

impl Parser<char> for OneChar {
    fn parse(&self, input: String) -> Result<(char, String), String> {
        let mut chars = input.chars();
        match chars.next() {
            Some(c) => Ok((c, chars.as_str().to_string())),
            None => Err("end of input".to_string()),
        }
    }
}

#[test]
fn map_applies_the_function_to_the_value() {
    let parser = succeed(20).map(|x| x + 1);
    assert_eq!(parser.parse("abc".to_string()), Ok((21, "abc".to_string())));
}

#[test]
fn map_can_change_the_value_type() {
    let parser = succeed(5u8).map(|x| format!("<{}>", x));
    assert_eq!(parser.parse("abc".to_string()), Ok(("<5>".to_string(), "abc".to_string())));
}

#[test]
fn map_leaves_the_rest_alone() {
    let parser = OneChar.map(|c| c.to_ascii_uppercase());
    assert_eq!(parser.parse("abc".to_string()), Ok(('A', "bc".to_string())));
}

#[test]
fn map_with_identity_changes_nothing_on_success() {
    let plain = OneChar.parse("abc".to_string());
    let mapped = OneChar.map(|x| x).parse("abc".to_string());
    assert_eq!(mapped, plain);
    assert_eq!(mapped, Ok(('a', "bc".to_string())));
}

#[test]
fn map_with_identity_changes_nothing_on_failure() {
    let plain = OneChar.parse(String::new());
    let mapped = OneChar.map(|x| x).parse(String::new());
    assert_eq!(mapped, plain);
    assert_eq!(mapped, Err("end of input".to_string()));
}

#[test]
fn map_twice_is_map_with_the_composition() {
    let f = |x: i32| x + 3;
    let g = |x: i32| x * 2;
    let two_steps = succeed(4).map(f).map(g).parse("abc".to_string());
    let one_step = succeed(4).map(|x| g(f(x))).parse("abc".to_string());
    assert_eq!(two_steps, one_step);
    assert_eq!(two_steps, Ok((14, "abc".to_string())));
}

#[test]
fn map_twice_is_map_with_the_composition_on_failure() {
    let f = |x: i32| x + 3;
    let g = |x: i32| x * 2;
    let two_steps = fail::<i32>("bad".to_string()).map(f).map(g).parse("abc".to_string());
    let one_step = fail::<i32>("bad".to_string()).map(|x| g(f(x))).parse("abc".to_string());
    assert_eq!(two_steps, one_step);
    assert_eq!(two_steps, Err("bad".to_string()));
}

#[test]
fn map_twice_is_map_with_the_composition_after_reading() {
    let f = |c: char| c as u32;
    let g = |n: u32| n + 1;
    let two_steps = OneChar.map(f).map(g).parse("abc".to_string());
    let one_step = OneChar.map(|c| g(f(c))).parse("abc".to_string());
    assert_eq!(two_steps, one_step);
    assert_eq!(two_steps, Ok((98, "bc".to_string())));
}

#[test]
fn map_relays_a_failure_unchanged() {
    let parser = fail::<i32>("bad".to_string()).map(|x| x + 1);
    assert_eq!(parser.parse("abc".to_string()), Err("bad".to_string()));
}

#[test]
fn map_does_not_call_the_function_after_a_failure() {
    let calls = Cell::new(0);
    let parser = fail::<i32>("bad".to_string()).map(|x| {
        calls.set(calls.get() + 1);
        x
    });
    assert_eq!(parser.parse("abc".to_string()), Err("bad".to_string()));
    assert_eq!(calls.get(), 0);
}

#[test]
fn map_calls_the_function_once_per_successful_run() {
    let calls = Cell::new(0);
    let parser = succeed(1).map(|x| {
        calls.set(calls.get() + 1);
        x
    });
    assert_eq!(parser.parse("abc".to_string()), Ok((1, "abc".to_string())));
    assert_eq!(calls.get(), 1);
    assert_eq!(parser.parse("abc".to_string()), Ok((1, "abc".to_string())));
    assert_eq!(calls.get(), 2);
}

#[test]
fn free_map_does_what_the_method_does() {
    let by_function = parser_combinators::map(succeed(20), |x| x + 1).parse("abc".to_string());
    let by_method = succeed(20).map(|x| x + 1).parse("abc".to_string());
    assert_eq!(by_function, by_method);
    assert_eq!(by_function, Ok((21, "abc".to_string())));
}

#[test]
fn free_map_relays_a_failure() {
    let parser = parser_combinators::map(fail::<i32>("bad".to_string()), |x| x + 1);
    assert_eq!(parser.parse("abc".to_string()), Err("bad".to_string()));
}

#[test]
fn free_map_result_composes_further() {
    let parser = parser_combinators::map(OneChar, |c| c as u32).seq(succeed(true));
    assert_eq!(parser.parse("abc".to_string()), Ok(((97, true), "bc".to_string())));
}
