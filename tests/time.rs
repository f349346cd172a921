use mpris_format::format::time::{helper, render_time, width_of_value, Width};
use mpris_format::value::{Number, Value};

const LONG: u64 = (2 * 60 * 60) + (5 * 60) + 34;
const MIDDLE: u64 = (5 * 60) + 34;
const SHORT: u64 = 34;

fn num(n: u64) -> Value {
    Value::Number(Number::PosInt(n))
}

fn text(s: &str) -> Value {
    Value::String(s.to_string())
}

#[test]
fn it_renders_with_dynamic_width() {
    assert_eq!(helper(&vec![num(LONG)]), "02:05:34");
    assert_eq!(helper(&vec![num(MIDDLE)]), "05:34");
    assert_eq!(helper(&vec![num(SHORT)]), "00:34");
}

#[test]
fn it_renders_with_set_width() {
    assert_eq!(helper(&vec![num(LONG), text("hour")]), "02:05:34");
    assert_eq!(helper(&vec![num(SHORT), text("hour")]), "00:00:34");
    assert_eq!(helper(&vec![num(LONG), text("minute")]), "05:34");
}

#[test]
fn it_renders_with_width_from_other_value() {
    assert_eq!(helper(&vec![num(LONG), num(SHORT)]), "05:34");
    assert_eq!(helper(&vec![num(MIDDLE), num(LONG)]), "00:05:34");
}

#[test]
fn it_falls_back_on_dynamic_width_on_bad_width() {
    assert_eq!(helper(&vec![num(MIDDLE), text("bad")]), "05:34");
    assert_eq!(helper(&vec![num(MIDDLE), Value::Null]), "05:34");
}

#[test]
fn it_renders_nothing_when_value_is_bad() {
    assert_eq!(helper(&vec![text("bad")]), "");
    assert_eq!(helper(&vec![Value::Number(Number::NegInt(-100))]), "");
    // `NaN` in a template is a variable that is not there, so null.
    assert_eq!(helper(&vec![Value::Null]), "");
}

#[test]
fn time_width_boundary_is_one_hour_inclusive() {
    // Minute width shows the minutes past whole hours.
    assert_eq!(helper(&vec![num(3600)]), "00:00");
    assert_eq!(helper(&vec![num(3599)]), "59:59");
    assert_eq!(helper(&vec![num(3601)]), "01:00:01");
    assert_eq!(width_of_value(&num(0)), Width::Minute);
    assert_eq!(width_of_value(&num(3600)), Width::Minute);
    assert_eq!(width_of_value(&num(3601)), Width::Hour);
}

#[test]
fn time_bad_hint_with_long_value_uses_hours() {
    assert_eq!(helper(&vec![num(LONG), text("bad")]), "02:05:34");
    assert_eq!(helper(&vec![num(LONG), Value::Null]), "02:05:34");
    assert_eq!(helper(&vec![num(LONG), Value::Number(Number::NegInt(-1))]), "02:05:34");
    assert_eq!(helper(&vec![num(LONG), Value::Number(Number::Float("1.5".to_string()))]), "02:05:34");
}

#[test]
fn time_rejects_fractional_and_missing_values() {
    assert_eq!(helper(&vec![]), "");
    assert_eq!(helper(&vec![Value::Number(Number::Float("12.5".to_string()))]), "");
    assert_eq!(helper(&vec![Value::Bool(true)]), "");
    assert_eq!(helper(&vec![Value::Array(vec![num(5)])]), "");
}

#[test]
fn time_accepts_non_negative_signed_numbers() {
    assert_eq!(helper(&vec![Value::Number(Number::NegInt(34))]), "00:34");
}

#[test]
fn time_hours_grow_past_two_digits() {
    assert_eq!(render_time(360_000, Width::Hour), "100:00:00");
    assert_eq!(render_time(59, Width::Invalid), "00:59");
    assert_eq!(render_time(0, Width::Hour), "00:00:00");
    assert_eq!(render_time(u64::MAX, Width::Hour), "5124095576030431:00:15");
}

#[test]
fn width_words_and_other_values() {
    assert_eq!(width_of_value(&text("hour")), Width::Hour);
    assert_eq!(width_of_value(&text("minute")), Width::Minute);
    assert_eq!(width_of_value(&text("Hour")), Width::Invalid);
    assert_eq!(width_of_value(&Value::Bool(true)), Width::Invalid);
    assert_eq!(width_of_value(&Value::Null), Width::Invalid);
}
