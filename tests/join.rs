use mpris_format::format::join::helper;
use mpris_format::value::{Number, Value};

fn num(n: u64) -> Value {
    Value::Number(Number::PosInt(n))
}

fn text(s: &str) -> Value {
    Value::String(s.to_string())
}

fn array(items: Vec<Value>) -> Value {
    Value::Array(items)
}

#[test]
fn it_joins_arrays() {
    let letters = array(vec![text("a"), text("b"), text("c")]);
    let numbers = array(vec![num(1), num(2), num(3)]);
    let holes = array(vec![num(1), Value::Null, num(3)]);

    assert_eq!(helper(&vec![text("+"), numbers]), "1+2+3");
    let numbers = array(vec![num(1), num(2), num(3)]);
    assert_eq!(helper(&vec![text("+"), numbers, holes]), "1+2+3+1+3");
    assert_eq!(helper(&vec![text("."), letters, text("and so on")]), "a.b.c.and so on");
}

#[test]
fn it_renders_nothing_on_empty_values() {
    assert_eq!(helper(&vec![text("."), array(vec![])]), "");
    assert_eq!(
        helper(&vec![text("."), array(vec![Value::Null, Value::Null, Value::Null])]),
        ""
    );
    assert_eq!(helper(&vec![text("."), array(vec![num(1), Value::Null, Value::Null])]), "1");
}

#[test]
fn it_renders_nothing_on_missing_arguments() {
    assert_eq!(helper(&vec![text(".")]), "");
    assert_eq!(helper(&vec![]), "");
}

#[test]
fn join_renders_a_non_string_separator() {
    assert_eq!(helper(&vec![num(0), array(vec![num(7), num(8)])]), "708");
    assert_eq!(helper(&vec![Value::Bool(true), text("a"), text("b")]), "atrueb");
}

#[test]
fn join_flattens_only_one_level() {
    let nested = array(vec![num(1), array(vec![num(2), num(3)])]);
    assert_eq!(helper(&vec![text("-"), nested]), "1-[2, 3, ]");
}

#[test]
fn join_skips_null_parameters_and_keeps_empty_strings() {
    assert_eq!(helper(&vec![text(","), Value::Null, text("x"), Value::Null]), "x");
    assert_eq!(helper(&vec![text(","), text(""), text("x")]), ",x");
}

#[test]
fn join_renders_every_kind_of_element() {
    let items = array(vec![
        Value::Bool(false),
        Value::Number(Number::NegInt(-5)),
        Value::Number(Number::Float("2.5".to_string())),
        text("s"),
    ]);
    assert_eq!(helper(&vec![text(" "), items]), "false -5 2.5 s");
}
