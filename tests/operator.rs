use jinko::{JinkChar, Operator, Value};

#[test]
fn operator_texts_round_trip() {
    for t in ["+", "-", "*", "/", "(", ")", "==", "!="] {
        assert_eq!(Operator::new(t).as_str(), t);
    }
    assert_eq!(Operator::parse("%"), None);
    assert_eq!(Operator::parse("=!"), None);
    assert_eq!(Operator::parse(""), None);
}

#[test]
fn operator_precedence() {
    assert_eq!(Operator::Mul.precedence(), 3);
    assert_eq!(Operator::Div.precedence(), 3);
    assert_eq!(Operator::Add.precedence(), 2);
    assert_eq!(Operator::Sub.precedence(), 2);
    assert_eq!(Operator::Equals.precedence(), 0);
    assert_eq!(Operator::LeftParenthesis.precedence(), 0);
    assert!(Operator::Sub.is_left_associative());
}

#[test]
fn value_texts() {
    assert_eq!(Value::Int(-42).print(), "-42");
    assert_eq!(Value::Int(0).print(), "0");
    assert_eq!(Value::Bool(false).print(), "false");
    assert_eq!(Value::Str("hey".to_string()).print(), "\"hey\"");
    assert_eq!(JinkChar::from('x').print(), "x");
}
