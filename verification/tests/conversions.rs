use ion_model::context::Context;
use ion_model::conversions::ConversionBehavior;
use ion_model::conversions::FromValue;
use ion_model::error::Error;
use ion_model::error::ErrorKind;
use ion_model::error::ErrorMessage;
use ion_model::value::Iterability;
use ion_model::value::Num;
use ion_model::value::NumKind;
use ion_model::value::ObjectClass;
use ion_model::value::ObjectData;
use ion_model::value::Value;

fn cx() -> Context {
    Context::new(1)
}

fn num(kind: NumKind, text: &str) -> Value {
    Value::Number(Num { kind, text: text.to_string() })
}

fn int_num(n: i128) -> Value {
    num(NumKind::Finite { trunc: n, integral: true }, &n.to_string())
}

fn plain_object(iter: Iterability) -> Value {
    Value::Object(Box::new(ObjectData {
        class: ObjectClass::Plain,
        compartment: 1,
        iter,
        to_number: None,
        to_string: None,
    }))
}

fn array_object(items: Vec<Value>) -> Value {
    Value::Object(Box::new(ObjectData {
        class: ObjectClass::Array,
        compartment: 1,
        iter: Iterability::Items { items, fail_after: false },
        to_number: None,
        to_string: None,
    }))
}

#[test]
fn strict_boolean_accepts_native_booleans_only() {
    let mut cx = cx();
    assert_eq!(bool::from_value(&mut cx, &Value::Boolean(true), true, ()), Ok(true));
    assert_eq!(bool::from_value(&mut cx, &Value::Boolean(false), true, ()), Ok(false));
    let r = bool::from_value(&mut cx, &int_num(1), true, ());
    assert_eq!(
        r,
        Err(Error::new(ErrorMessage::ExpectedBooleanInStrictConversion, ErrorKind::Type))
    );
}

#[test]
fn loose_boolean_follows_truthiness_table() {
    let mut cx = cx();
    assert_eq!(bool::from_value(&mut cx, &Value::Undefined, false, ()), Ok(false));
    assert_eq!(bool::from_value(&mut cx, &Value::Null, false, ()), Ok(false));
    assert_eq!(bool::from_value(&mut cx, &int_num(0), false, ()), Ok(false));
    assert_eq!(bool::from_value(&mut cx, &num(NumKind::NaN, "NaN"), false, ()), Ok(false));
    assert_eq!(bool::from_value(&mut cx, &Value::Str(String::new()), false, ()), Ok(false));
    assert_eq!(bool::from_value(&mut cx, &int_num(42), false, ()), Ok(true));
    assert_eq!(
        bool::from_value(&mut cx, &num(NumKind::Finite { trunc: 0, integral: false }, "0.5"), false, ()),
        Ok(true)
    );
    assert_eq!(bool::from_value(&mut cx, &Value::Str("x".to_string()), false, ()), Ok(true));
    assert_eq!(
        bool::from_value(&mut cx, &plain_object(Iterability::NotIterable), false, ()),
        Ok(true)
    );
}

#[test]
fn fractional_number_to_u32_under_each_policy() {
    let mut cx = cx();
    let v = num(NumKind::Finite { trunc: 42, integral: false }, "42.7");
    assert_eq!(
        u32::from_value(&mut cx, &v, false, ConversionBehavior::Clamp),
        Ok(42)
    );
    let enforced = u32::from_value(&mut cx, &v, false, ConversionBehavior::EnforceRange);
    assert_eq!(enforced, Err(Error::new(ErrorMessage::ValueOutOfRange, ErrorKind::Type)));
    assert_eq!(
        u32::from_value(&mut cx, &v, false, ConversionBehavior::Wrap),
        Ok(42)
    );
}

#[test]
fn integer_wrap_is_modular() {
    let mut cx = cx();
    assert_eq!(u8::from_value(&mut cx, &int_num(-1), false, ConversionBehavior::Wrap), Ok(255));
    assert_eq!(u8::from_value(&mut cx, &int_num(300), false, ConversionBehavior::Wrap), Ok(44));
    assert_eq!(i8::from_value(&mut cx, &int_num(130), false, ConversionBehavior::Wrap), Ok(-126));
    assert_eq!(
        u64::from_value(&mut cx, &num(NumKind::Huge { negative: false }, "2e120"), false, ConversionBehavior::Wrap),
        Ok(0)
    );
    assert_eq!(
        u8::from_value(&mut cx, &num(NumKind::NaN, "NaN"), false, ConversionBehavior::Wrap),
        Ok(0)
    );
    assert_eq!(
        u8::from_value(
            &mut cx,
            &num(NumKind::Infinite { negative: true }, "-Infinity"),
            false,
            ConversionBehavior::Wrap
        ),
        Ok(0)
    );
}

#[test]
fn integer_clamp_saturates() {
    let mut cx = cx();
    assert_eq!(u8::from_value(&mut cx, &int_num(300), false, ConversionBehavior::Clamp), Ok(255));
    assert_eq!(u8::from_value(&mut cx, &int_num(-5), false, ConversionBehavior::Clamp), Ok(0));
    assert_eq!(i8::from_value(&mut cx, &int_num(130), false, ConversionBehavior::Clamp), Ok(127));
    assert_eq!(
        i16::from_value(
            &mut cx,
            &num(NumKind::Infinite { negative: true }, "-Infinity"),
            false,
            ConversionBehavior::Clamp
        ),
        Ok(-32768)
    );
    assert_eq!(
        u16::from_value(&mut cx, &num(NumKind::NaN, "NaN"), false, ConversionBehavior::Clamp),
        Ok(0)
    );
}

#[test]
fn integer_enforce_range_rejects_bad_values() {
    let mut cx = cx();
    let err = Err(Error::new(ErrorMessage::ValueOutOfRange, ErrorKind::Type));
    assert_eq!(u8::from_value(&mut cx, &int_num(256), false, ConversionBehavior::EnforceRange), err);
    assert_eq!(
        u8::from_value(&mut cx, &num(NumKind::NaN, "NaN"), false, ConversionBehavior::EnforceRange),
        err
    );
    assert_eq!(
        u8::from_value(
            &mut cx,
            &num(NumKind::Infinite { negative: false }, "Infinity"),
            false,
            ConversionBehavior::EnforceRange
        ),
        err
    );
    assert_eq!(u8::from_value(&mut cx, &int_num(255), false, ConversionBehavior::EnforceRange), Ok(255));
    assert_eq!(i64::from_value(&mut cx, &int_num(-7), false, ConversionBehavior::EnforceRange), Ok(-7));
}

#[test]
fn strict_integer_requires_number() {
    let mut cx = cx();
    assert_eq!(
        u32::from_value(&mut cx, &Value::Str("42".to_string()), true, ConversionBehavior::Wrap),
        Err(Error::new(ErrorMessage::ExpectedNumberInStrictConversion, ErrorKind::Type))
    );
    assert_eq!(
        u32::from_value(&mut cx, &int_num(42), true, ConversionBehavior::Wrap),
        Ok(42)
    );
}

#[test]
fn string_sources_coerce_to_numbers() {
    let mut cx = cx();
    let w = ConversionBehavior::Wrap;
    assert_eq!(u32::from_value(&mut cx, &Value::Str("42".to_string()), false, w), Ok(42));
    assert_eq!(i32::from_value(&mut cx, &Value::Str("-7".to_string()), false, w), Ok(-7));
    assert_eq!(i32::from_value(&mut cx, &Value::Str("+5".to_string()), false, w), Ok(5));
    assert_eq!(u32::from_value(&mut cx, &Value::Str(String::new()), false, w), Ok(0));
    assert_eq!(u32::from_value(&mut cx, &Value::Str("4x2".to_string()), false, w), Ok(0));
    let digits = "9".repeat(40);
    assert_eq!(u8::from_value(&mut cx, &Value::Str(digits.clone()), false, w), Ok(0));
    assert_eq!(
        u8::from_value(&mut cx, &Value::Str(digits), false, ConversionBehavior::Clamp),
        Ok(255)
    );
}

#[test]
fn throwing_number_hook_yields_unspecified_error() {
    let mut cx = cx();
    let v = Value::Object(Box::new(ObjectData {
        class: ObjectClass::Plain,
        compartment: 1,
        iter: Iterability::NotIterable,
        to_number: None,
        to_string: None,
    }));
    assert_eq!(
        u32::from_value(&mut cx, &v, false, ConversionBehavior::Wrap),
        Err(Error::unspecified())
    );
}

#[test]
fn object_number_hook_is_used() {
    let mut cx = cx();
    let v = Value::Object(Box::new(ObjectData {
        class: ObjectClass::Plain,
        compartment: 1,
        iter: Iterability::NotIterable,
        to_number: Some(Num { kind: NumKind::Finite { trunc: 7, integral: true }, text: "7".to_string() }),
        to_string: None,
    }));
    assert_eq!(u32::from_value(&mut cx, &v, false, ConversionBehavior::Wrap), Ok(7));
}

#[test]
fn string_conversion_modes() {
    let mut cx = cx();
    assert_eq!(
        String::from_value(&mut cx, &Value::Str("hi".to_string()), true, ()),
        Ok("hi".to_string())
    );
    assert_eq!(
        String::from_value(&mut cx, &int_num(3), true, ()),
        Err(Error::new(ErrorMessage::ExpectedStringInStrictConversion, ErrorKind::Type))
    );
    assert_eq!(String::from_value(&mut cx, &Value::Null, false, ()), Ok("null".to_string()));
    assert_eq!(
        String::from_value(&mut cx, &Value::Undefined, false, ()),
        Ok("undefined".to_string())
    );
    assert_eq!(
        String::from_value(&mut cx, &Value::Boolean(true), false, ()),
        Ok("true".to_string())
    );
    assert_eq!(
        String::from_value(&mut cx, &num(NumKind::Finite { trunc: 42, integral: false }, "42.7"), false, ()),
        Ok("42.7".to_string())
    );
}

#[test]
fn object_string_hook_and_its_failure() {
    let mut cx = cx();
    let ok = Value::Object(Box::new(ObjectData {
        class: ObjectClass::Plain,
        compartment: 1,
        iter: Iterability::NotIterable,
        to_number: None,
        to_string: Some("boxed".to_string()),
    }));
    assert_eq!(String::from_value(&mut cx, &ok, false, ()), Ok("boxed".to_string()));
    let bad = plain_object(Iterability::NotIterable);
    assert_eq!(
        String::from_value(&mut cx, &bad, false, ()),
        Err(Error::new(ErrorMessage::UnableToConvertValueToString, ErrorKind::Type))
    );
}

#[test]
fn option_of_null_and_undefined_is_absent() {
    let mut cx = cx();
    assert_eq!(<Option<String>>::from_value(&mut cx, &Value::Null, false, ()), Ok(None));
    assert_eq!(<Option<String>>::from_value(&mut cx, &Value::Undefined, false, ()), Ok(None));
    assert_eq!(
        <Option<String>>::from_value(&mut cx, &Value::Str("hi".to_string()), false, ()),
        Ok(Some("hi".to_string()))
    );
    assert_eq!(
        <Option<u8>>::from_value(&mut cx, &int_num(300), false, ConversionBehavior::EnforceRange),
        Err(Error::new(ErrorMessage::ValueOutOfRange, ErrorKind::Type))
    );
}

#[test]
fn vector_preserves_source_order() {
    let mut cx = cx();
    let v = array_object(vec![int_num(1), int_num(2), int_num(3)]);
    assert_eq!(
        <Vec<u8>>::from_value(&mut cx, &v, false, ConversionBehavior::Wrap),
        Ok(vec![1, 2, 3])
    );
}

#[test]
fn vector_failure_aborts_with_that_error() {
    let mut cx = cx();
    let v = array_object(vec![
        int_num(1),
        num(NumKind::Finite { trunc: 2, integral: false }, "2.5"),
        int_num(3),
    ]);
    assert_eq!(
        <Vec<u8>>::from_value(&mut cx, &v, false, ConversionBehavior::EnforceRange),
        Err(Error::new(ErrorMessage::ValueOutOfRange, ErrorKind::Type))
    );
}

#[test]
fn strict_vector_requires_an_array() {
    let mut cx = cx();
    let plain = plain_object(Iterability::Items { items: vec![int_num(1)], fail_after: false });
    assert_eq!(
        <Vec<u8>>::from_value(&mut cx, &plain, true, ConversionBehavior::Wrap),
        Err(Error::new(ErrorMessage::ExpectedArray, ErrorKind::Type))
    );
    assert_eq!(
        <Vec<u8>>::from_value(&mut cx, &plain, false, ConversionBehavior::Wrap),
        Ok(vec![1])
    );
    let arr = array_object(vec![int_num(1)]);
    assert_eq!(
        <Vec<u8>>::from_value(&mut cx, &arr, true, ConversionBehavior::Wrap),
        Ok(vec![1])
    );
}

#[test]
fn vector_iteration_failures_are_distinct() {
    let mut cx = cx();
    assert_eq!(
        <Vec<u8>>::from_value(&mut cx, &int_num(1), false, ConversionBehavior::Wrap),
        Err(Error::new(ErrorMessage::ExpectedObject, ErrorKind::Type))
    );
    assert_eq!(
        <Vec<u8>>::from_value(&mut cx, &plain_object(Iterability::NotIterable), false, ConversionBehavior::Wrap),
        Err(Error::new(ErrorMessage::ExpectedIterable, ErrorKind::Type))
    );
    assert_eq!(
        <Vec<u8>>::from_value(&mut cx, &plain_object(Iterability::InitThrows), false, ConversionBehavior::Wrap),
        Err(Error::new(ErrorMessage::FailedToInitialiseIterator, ErrorKind::Type))
    );
    let failing = plain_object(Iterability::Items { items: vec![int_num(9)], fail_after: true });
    assert_eq!(
        <Vec<u8>>::from_value(&mut cx, &failing, false, ConversionBehavior::Wrap),
        Err(Error::new(ErrorMessage::FailedToExecuteNextOnIterator, ErrorKind::Type))
    );
}

#[test]
fn nested_vectors_convert_recursively() {
    let mut cx = cx();
    let inner1 = array_object(vec![int_num(1), int_num(2)]);
    let inner2 = array_object(vec![int_num(3)]);
    let outer = array_object(vec![inner1, inner2]);
    assert_eq!(
        <Vec<Vec<u8>>>::from_value(&mut cx, &outer, false, ConversionBehavior::Wrap),
        Ok(vec![vec![1, 2], vec![3]])
    );
    let with_null = array_object(vec![int_num(1), Value::Null]);
    assert_eq!(
        <Vec<Option<u8>>>::from_value(&mut cx, &with_null, false, ConversionBehavior::Wrap),
        Ok(vec![Some(1), None])
    );
}

