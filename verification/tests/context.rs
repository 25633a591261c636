use bytes::Bytes;
use restate_mock::json::{Json, JsonValue};
use restate_mock::mock::context::{ExecutionContext, Variable, VariableError};
use restate_mock::number::{Float, Number};

#[test]
fn variable_from_each_primitive() {
    assert_eq!(Variable::from("abc".to_string()), Variable::String("abc".to_string()));
    assert_eq!(Variable::from(-7isize), Variable::Integer(-7));
    assert_eq!(
        Variable::from(Float::from_bits(1.5f64.to_bits())),
        Variable::Number(Float { bits: 1.5f64.to_bits() })
    );
    assert_eq!(Variable::from(true), Variable::Boolean(true));
    assert_eq!(Variable::from(Bytes::from_static(b"xy")), Variable::Bytes(Bytes::from_static(b"xy")));
    assert_eq!(Variable::from(vec![0u8, 255, 7]), Variable::Bytes(Bytes::from(vec![0u8, 255, 7])));
    assert_eq!(Variable::from(()), Variable::Null);
}

#[test]
fn try_from_gives_the_value_of_the_matching_variant() {
    assert_eq!(String::try_from(Variable::String("abc".to_string())), Ok("abc".to_string()));
    assert_eq!(isize::try_from(Variable::Integer(42)), Ok(42));
    assert_eq!(
        Float::try_from(Variable::Number(Float::from_bits(2.25f64.to_bits()))).map(|x| f64::from_bits(x.to_bits())),
        Ok(2.25)
    );
    assert_eq!(bool::try_from(Variable::Boolean(false)), Ok(false));
    assert_eq!(Bytes::try_from(Variable::Bytes(Bytes::from_static(b"\x00\xff"))), Ok(Bytes::from_static(b"\x00\xff")));
}

#[test]
fn try_from_fails_on_another_variant_without_coercion() {
    assert_eq!(String::try_from(Variable::Integer(1)), Err(VariableError::InvalidType));
    assert_eq!(isize::try_from(Variable::String("1".to_string())), Err(VariableError::InvalidType));
    assert_eq!(isize::try_from(Variable::Number(Float::from_bits(1.0f64.to_bits()))), Err(VariableError::InvalidType));
    assert_eq!(Float::try_from(Variable::Integer(1)), Err(VariableError::InvalidType));
    assert_eq!(bool::try_from(Variable::Integer(1)), Err(VariableError::InvalidType));
    assert_eq!(Bytes::try_from(Variable::String("ab".to_string())), Err(VariableError::InvalidType));
    assert_eq!(bool::try_from(Variable::Null), Err(VariableError::InvalidType));
}

#[test]
fn return_value_set_once_is_what_ret_yields() {
    let mut context = ExecutionContext::new();
    assert!(!context.has_returned());
    let value = JsonValue(Json::Object(vec![("x".to_string(), Json::Number(Number::PosInt(1)))]));
    context.return_value(value.clone());
    assert!(context.has_returned());
    assert_eq!(context.ret(), Some(value));
}

#[test]
fn ret_without_return_value_is_none() {
    let context = ExecutionContext::default();
    assert_eq!(context.ret(), None);
}

#[test]
fn get_on_an_absent_name_reads_nothing() {
    let context = ExecutionContext::new();
    assert_eq!(context.get::<isize>("missing"), None);
    assert_eq!(context.get_variable("missing"), None);
}

#[test]
fn get_on_another_variant_is_a_type_error() {
    let mut context = ExecutionContext::new();
    context.set("name", Variable::String("abc".to_string()));
    assert_eq!(context.get::<isize>("name"), Some(Err(VariableError::InvalidType)));
    assert_eq!(context.get::<String>("name"), Some(Ok("abc".to_string())));
}

#[test]
fn get_on_a_stored_null_reads_nothing() {
    let mut context = ExecutionContext::new();
    context.set("gone", Variable::Null);
    assert_eq!(context.get::<String>("gone"), None);
    assert_eq!(context.get::<isize>("gone"), None);
    assert_eq!(context.get_variable("gone"), Some(&Variable::Null));
}

#[test]
fn set_overwrites_and_the_last_write_wins() {
    let mut context = ExecutionContext::new();
    context.set("n", Variable::Integer(1));
    context.set("m", Variable::Boolean(true));
    context.set("n", Variable::Integer(2));
    assert_eq!(context.get::<isize>("n"), Some(Ok(2)));
    assert_eq!(context.get::<bool>("m"), Some(Ok(true)));
}
