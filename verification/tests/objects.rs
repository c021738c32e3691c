use ion_model::arguments::Arguments;
use ion_model::context::Context;
use ion_model::conversions::FromValue;
use ion_model::error::Error;
use ion_model::error::ErrorKind;
use ion_model::error::ErrorMessage;
use ion_model::format::BoxedClass;
use ion_model::format::Colour;
use ion_model::format::Config;
use ion_model::format::format_boxed;
use ion_model::format::format_date;
use ion_model::value::Array;
use ion_model::value::Date;
use ion_model::value::DateData;
use ion_model::value::Function;
use ion_model::value::Iterability;
use ion_model::value::Num;
use ion_model::value::NumKind;
use ion_model::value::Object;
use ion_model::value::ObjectClass;
use ion_model::value::ObjectData;
use ion_model::value::Promise;
use ion_model::value::Value;

fn cx() -> Context {
    Context::new(1)
}

fn object_of(class: ObjectClass) -> Value {
    Value::Object(Box::new(ObjectData {
        class,
        compartment: 1,
        iter: Iterability::NotIterable,
        to_number: None,
        to_string: None,
    }))
}

fn sample_date() -> DateData {
    DateData { valid: true, year: 2023, month: 5, day: 1, hour: 12, minute: 30, second: 45 }
}

#[test]
fn object_conversion_requires_an_object() {
    let mut cx = cx();
    let v = object_of(ObjectClass::Plain);
    let o = match Object::from_value(&mut cx, &v, false, ()) {
        Ok(o) => o,
        Err(_) => panic!("expected an object"),
    };
    assert!(matches!(o.data.class, ObjectClass::Plain));
    assert_eq!(o.data.compartment, 1);
    assert!(matches!(
        Object::from_value(&mut cx, &Value::Null, false, ()),
        Err(e) if e == Error::new(ErrorMessage::ExpectedObject, ErrorKind::Type)
    ));
}

#[test]
fn refinements_check_the_object_class() {
    let mut cx = cx();
    let arr = object_of(ObjectClass::Array);
    assert!(Array::from_value(&mut cx, &arr, false, ()).is_ok());
    assert!(matches!(
        Array::from_value(&mut cx, &object_of(ObjectClass::Plain), false, ()),
        Err(e) if e == Error::new(ErrorMessage::ExpectedArray, ErrorKind::Type)
    ));
    assert!(matches!(
        Array::from_value(&mut cx, &Value::Boolean(true), false, ()),
        Err(e) if e == Error::new(ErrorMessage::ExpectedArray, ErrorKind::Type)
    ));
    assert!(Promise::from_value(&mut cx, &object_of(ObjectClass::Promise), false, ()).is_ok());
    assert!(matches!(
        Promise::from_value(&mut cx, &object_of(ObjectClass::Plain), false, ()),
        Err(e) if e == Error::new(ErrorMessage::ExpectedPromise, ErrorKind::Type)
    ));
    assert!(Function::from_value(&mut cx, &object_of(ObjectClass::Callable), false, ()).is_ok());
    assert!(matches!(
        Function::from_value(&mut cx, &object_of(ObjectClass::Plain), false, ()),
        Err(e) if e == Error::new(ErrorMessage::ExpectedFunction, ErrorKind::Type)
    ));
}

#[test]
fn date_conversion_unboxes_the_fields() {
    let mut cx = cx();
    let v = object_of(ObjectClass::Date(sample_date()));
    let d = match Date::from_value(&mut cx, &v, false, ()) {
        Ok(d) => d,
        Err(_) => panic!("expected a date"),
    };
    assert_eq!(d.data, sample_date());
    assert!(matches!(
        Date::from_value(&mut cx, &object_of(ObjectClass::Plain), false, ()),
        Err(e) if e == Error::new(ErrorMessage::ExpectedDate, ErrorKind::Type)
    ));
}

#[test]
fn value_passthrough_rerootss_the_same_value() {
    let mut cx = cx();
    let v = Value::Str("keep".to_string());
    let r = match Value::from_value(&mut cx, &v, false, ()) {
        Ok(r) => r,
        Err(_) => panic!("expected a value"),
    };
    assert!(matches!(r, Value::Str(s) if s == "keep"));
}

#[test]
fn format_date_renders_the_civil_fields() {
    colored::control::set_override(false);
    let cx = cx();
    let cfg = Config { date_colour: Colour::Cyan };
    let date = Date { data: sample_date() };
    let s = format_date(&cx, cfg, &date);
    assert_eq!(s, "2023-05-01 12:30:45 UTC");
}

#[test]
fn format_date_colours_when_forced() {
    colored::control::set_override(true);
    let cx = cx();
    let cfg = Config { date_colour: Colour::Cyan };
    let date = Date { data: sample_date() };
    let s = format_date(&cx, cfg, &date);
    assert!(s.contains("2023-05-01 12:30:45 UTC"));
    assert!(s.contains("\u{1b}["));
    colored::control::unset_override();
}

#[test]
fn arguments_expose_the_call_record() {
    let args_values = vec![Value::Boolean(true), Value::Str("a".to_string()), Value::Null];
    let mut args = Arguments::new(args_values, Value::Undefined, false);
    assert_eq!(args.len(), 3);
    assert!(matches!(args.value(0), Some(Value::Boolean(true))));
    assert!(matches!(args.value(2), Some(Value::Null)));
    assert!(args.value(3).is_none());
    assert!(!args.is_constructing());
    assert!(matches!(args.this(), Value::Undefined));
    assert!(matches!(args.rval(), Value::Undefined));
    args.set_rval(Value::Boolean(false));
    assert!(matches!(args.rval(), Value::Boolean(false)));
}

#[test]
fn arguments_range_skips_absent_indices() {
    let args = Arguments::new(
        vec![Value::Boolean(true), Value::Null, Value::Undefined],
        Value::Undefined,
        true,
    );
    let r = args.range(1, 10);
    assert_eq!(r.len(), 2);
    assert!(matches!(r[0], Value::Null));
    assert!(matches!(r[1], Value::Undefined));
    assert!(args.range(5, 9).is_empty());
    assert!(args.range(2, 1).is_empty());
    assert!(args.is_constructing());
}

#[test]
fn error_values_carry_kind_and_message() {
    let e = Error::new(ErrorMessage::ExpectedObject, ErrorKind::Type);
    assert_eq!(e.kind, ErrorKind::Type);
    assert_eq!(e.message, Some(ErrorMessage::ExpectedObject));
    assert_eq!(ErrorMessage::ExpectedObject.text(), "Expected Object");
    assert_eq!(
        ErrorMessage::ExpectedBooleanInStrictConversion.text(),
        "Expected Boolean in Strict Conversion"
    );
    let none = Error::unspecified();
    assert_eq!(none.kind, ErrorKind::Unspecified);
    assert_eq!(none.message, None);
}

#[test]
fn format_boxed_primitives() {
    let cx = cx();
    let cfg = Config { date_colour: Colour::White };
    assert_eq!(
        format_boxed(&cx, cfg, &Value::Boolean(true), BoxedClass::Boolean),
        "true"
    );
    let n = Value::Number(Num {
        kind: NumKind::Finite { trunc: 3, integral: false },
        text: "3.25".to_string(),
    });
    assert_eq!(format_boxed(&cx, cfg, &n, BoxedClass::Number), "3.25");
    assert_eq!(
        format_boxed(&cx, cfg, &Value::Str("hi".to_string()), BoxedClass::Str),
        "hi"
    );
    assert_eq!(
        format_boxed(&cx, cfg, &Value::Boolean(false), BoxedClass::BigInt),
        "Unimplemented Formatting: BigInt"
    );
}
