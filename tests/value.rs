use mpris_format::value::{Number, Value};

#[test]
fn values_render_as_text() {
    assert_eq!(Value::Null.render(), "");
    assert_eq!(Value::Bool(true).render(), "true");
    assert_eq!(Value::Bool(false).render(), "false");
    assert_eq!(Value::Number(Number::PosInt(0)).render(), "0");
    assert_eq!(Value::Number(Number::PosInt(1234567890)).render(), "1234567890");
    assert_eq!(Value::Number(Number::PosInt(u64::MAX)).render(), "18446744073709551615");
    assert_eq!(Value::Number(Number::NegInt(-100)).render(), "-100");
    assert_eq!(Value::Number(Number::NegInt(i64::MIN)).render(), "-9223372036854775808");
    assert_eq!(Value::Number(Number::Float("0.25".to_string())).render(), "0.25");
    assert_eq!(Value::String("verbatim {{x}}".to_string()).render(), "verbatim {{x}}");
}

#[test]
fn sequences_render_bracketed() {
    assert_eq!(Value::Array(vec![]).render(), "[]");
    let nested = Value::Array(vec![
        Value::Number(Number::PosInt(1)),
        Value::Null,
        Value::Array(vec![Value::String("a".to_string())]),
    ]);
    assert_eq!(nested.render(), "[1, , [a, ], ]");
}

#[test]
fn only_null_is_null() {
    assert!(Value::Null.is_null());
    assert!(!Value::Bool(false).is_null());
    assert!(!Value::String(String::new()).is_null());
    assert!(!Value::Array(vec![]).is_null());
}

#[test]
fn integers_read_as_unsigned() {
    assert_eq!(Value::Number(Number::PosInt(7)).as_u64(), Some(7));
    assert_eq!(Value::Number(Number::NegInt(7)).as_u64(), Some(7));
    assert_eq!(Value::Number(Number::NegInt(-7)).as_u64(), None);
    assert_eq!(Value::Number(Number::Float("7.0".to_string())).as_u64(), None);
    assert_eq!(Value::String("7".to_string()).as_u64(), None);
}
