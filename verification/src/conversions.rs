use vstd::prelude::*;

use crate::context::Context;
use crate::context::ForOfIteratorGuard;
use crate::error::Error;
use crate::error::ErrorKind;
use crate::error::ErrorMessage;
use crate::value::Array;
use crate::value::ClassV;
use crate::value::Date;
use crate::value::Function;
use crate::value::IterV;
use crate::value::Iterability;
use crate::value::Object;
use crate::value::ObjectClass;
use crate::value::Promise;
use crate::value::Val;
use crate::value::Value;
use crate::value::clone_object;
use crate::value::clone_value;
use crate::value::coerce_boolean;
use crate::value::obj_view;
use crate::value::truthy;
use crate::value::val_valid;
use crate::value::value_view;

verus! {

/// The typed, fallible, strictness-aware conversion from an engine value
/// into a host type. Each target type fixes its own configuration type.
///
/// The three specification functions pin the exec method down completely:
/// `converts` says exactly on which sources conversion succeeds,
/// `ok_rel` relates a successful result to the source, and `err_rel`
/// relates the returned error to the source. The method's contract also
/// states the root-stack balance: the depth of the context's root stack
/// is restored on every exit path, successful or failed.
pub trait FromValue: Sized {
    type Config;

    /// Does conversion of `v` succeed under this strictness and configuration?
    spec fn converts(v: Val, strict: bool, config: Self::Config) -> bool;

    /// How a successful result relates to the source value.
    spec fn ok_rel(v: Val, strict: bool, config: Self::Config, out: Self) -> bool;

    /// How a returned error relates to the source value.
    spec fn err_rel(v: Val, strict: bool, config: Self::Config, e: Error) -> bool;

    /// Converts `value` under the given strictness and configuration.
    fn from_value(cx: &mut Context, value: &Value, strict: bool, config: Self::Config) -> (r:
        Result<Self, Error>)
        requires
            val_valid(value@, old(cx).compartment as int),
        ensures
            final(cx).compartment == old(cx).compartment,
            final(cx).roots@ == old(cx).roots@,
            (r is Ok) <==> Self::converts(value@, strict, config),
            match r {
                Result::Ok(out) => Self::ok_rel(value@, strict, config, out),
                Result::Err(e) => Self::err_rel(value@, strict, config, e),
            },
    ;
}

impl FromValue for bool {
    type Config = ();

    /// Strict conversion succeeds only on a native boolean; loose
    /// conversion always succeeds.
    open spec fn converts(v: Val, strict: bool, config: ()) -> bool {
        v is Boolean || !strict
    }

    /// The result is the source's truthiness (a native boolean is its own
    /// truthiness).
    open spec fn ok_rel(v: Val, strict: bool, config: (), out: bool) -> bool {
        out == truthy(v)
    }

    open spec fn err_rel(v: Val, strict: bool, config: (), e: Error) -> bool {
        e == Error::typed(ErrorMessage::ExpectedBooleanInStrictConversion)
    }

    fn from_value(cx: &mut Context, value: &Value, strict: bool, config: ()) -> (r: Result<
        bool,
        Error,
    >) {
        match value {
            Value::Boolean(b) => Ok(*b),
            _ => {
                if strict {
                    Err(Error::new(ErrorMessage::ExpectedBooleanInStrictConversion, ErrorKind::Type))
                } else {
                    Ok(coerce_boolean(value))
                }
            },
        }
    }
}

impl<T: FromValue> FromValue for Option<T> {
    type Config = <T as FromValue>::Config;

    /// A null-or-undefined source is always "absent"; anything else
    /// succeeds exactly when `T`'s conversion does.
    open spec fn converts(v: Val, strict: bool, config: T::Config) -> bool {
        v is Null || v is Undefined || T::converts(v, strict, config)
    }

    /// "Absent" exactly for null-or-undefined; otherwise the present
    /// result is `T`'s result for the same source, strictness and
    /// configuration.
    open spec fn ok_rel(v: Val, strict: bool, config: T::Config, out: Option<T>) -> bool {
        match out {
            Option::None => v is Null || v is Undefined,
            Option::Some(t) => !(v is Null || v is Undefined) && T::ok_rel(v, strict, config, t),
        }
    }

    /// `T`'s error is propagated unchanged.
    open spec fn err_rel(v: Val, strict: bool, config: T::Config, e: Error) -> bool {
        !(v is Null || v is Undefined) && T::err_rel(v, strict, config, e)
    }

    fn from_value(cx: &mut Context, value: &Value, strict: bool, config: T::Config) -> (r: Result<
        Option<T>,
        Error,
    >) {
        match value {
            Value::Null => Ok(None),
            Value::Undefined => Ok(None),
            _ => match T::from_value(cx, value, strict, config) {
                Ok(t) => Ok(Some(t)),
                Err(e) => Err(e),
            },
        }
    }
}

} // verus!

verus! {

use crate::context::assert_same_compartment;

impl FromValue for Object {
    type Config = ();

    /// The source must already be an object; strictness is not
    /// applicable, and no implicit boxing is performed.
    open spec fn converts(v: Val, strict: bool, config: ()) -> bool {
        v is Object
    }

    /// The returned handle is the source object.
    open spec fn ok_rel(v: Val, strict: bool, config: (), out: Object) -> bool {
        v matches Val::Object(o) && out@ == o
    }

    open spec fn err_rel(v: Val, strict: bool, config: (), e: Error) -> bool {
        e == Error::typed(ErrorMessage::ExpectedObject)
    }

    fn from_value(cx: &mut Context, value: &Value, strict: bool, config: ()) -> (r: Result<
        Object,
        Error,
    >) {
        match value {
            Value::Object(o) => {
                assert_same_compartment(cx, o);
                Ok(Object { data: Box::new(clone_object(o)) })
            },
            _ => Err(Error::new(ErrorMessage::ExpectedObject, ErrorKind::Type)),
        }
    }
}

impl FromValue for Array {
    type Config = ();

    /// The source must be an object that the engine's array predicate
    /// recognizes.
    open spec fn converts(v: Val, strict: bool, config: ()) -> bool {
        v matches Val::Object(o) && o.class is Array
    }

    open spec fn ok_rel(v: Val, strict: bool, config: (), out: Array) -> bool {
        v matches Val::Object(o) && out@ == o && o.class is Array
    }

    open spec fn err_rel(v: Val, strict: bool, config: (), e: Error) -> bool {
        e == Error::typed(ErrorMessage::ExpectedArray)
    }

    fn from_value(cx: &mut Context, value: &Value, strict: bool, config: ()) -> (r: Result<
        Array,
        Error,
    >) {
        match value {
            Value::Object(o) => match o.class {
                ObjectClass::Array => {
                    assert_same_compartment(cx, o);
                    Ok(Array { data: Box::new(clone_object(o)) })
                },
                _ => Err(Error::new(ErrorMessage::ExpectedArray, ErrorKind::Type)),
            },
            _ => Err(Error::new(ErrorMessage::ExpectedArray, ErrorKind::Type)),
        }
    }
}

impl FromValue for Date {
    type Config = ();

    /// The source must be an object that unboxes as a date.
    open spec fn converts(v: Val, strict: bool, config: ()) -> bool {
        v matches Val::Object(o) && o.class is Date
    }

    open spec fn ok_rel(v: Val, strict: bool, config: (), out: Date) -> bool {
        v matches Val::Object(o) && o.class matches ClassV::Date(d) && out.data == d
    }

    open spec fn err_rel(v: Val, strict: bool, config: (), e: Error) -> bool {
        e == Error::typed(ErrorMessage::ExpectedDate)
    }

    fn from_value(cx: &mut Context, value: &Value, strict: bool, config: ()) -> (r: Result<
        Date,
        Error,
    >) {
        match value {
            Value::Object(o) => match o.class {
                ObjectClass::Date(d) => {
                    assert_same_compartment(cx, o);
                    Ok(Date { data: d })
                },
                _ => Err(Error::new(ErrorMessage::ExpectedDate, ErrorKind::Type)),
            },
            _ => Err(Error::new(ErrorMessage::ExpectedDate, ErrorKind::Type)),
        }
    }
}

impl FromValue for Promise {
    type Config = ();

    /// The source must be an object that unboxes as a promise.
    open spec fn converts(v: Val, strict: bool, config: ()) -> bool {
        v matches Val::Object(o) && o.class is Promise
    }

    open spec fn ok_rel(v: Val, strict: bool, config: (), out: Promise) -> bool {
        v matches Val::Object(o) && out@ == o && o.class is Promise
    }

    open spec fn err_rel(v: Val, strict: bool, config: (), e: Error) -> bool {
        e == Error::typed(ErrorMessage::ExpectedPromise)
    }

    fn from_value(cx: &mut Context, value: &Value, strict: bool, config: ()) -> (r: Result<
        Promise,
        Error,
    >) {
        match value {
            Value::Object(o) => match o.class {
                ObjectClass::Promise => {
                    assert_same_compartment(cx, o);
                    Ok(Promise { data: Box::new(clone_object(o)) })
                },
                _ => Err(Error::new(ErrorMessage::ExpectedPromise, ErrorKind::Type)),
            },
            _ => Err(Error::new(ErrorMessage::ExpectedPromise, ErrorKind::Type)),
        }
    }
}

impl FromValue for Function {
    type Config = ();

    /// The source must be an object that the engine's callable check
    /// accepts.
    open spec fn converts(v: Val, strict: bool, config: ()) -> bool {
        v matches Val::Object(o) && o.class is Callable
    }

    open spec fn ok_rel(v: Val, strict: bool, config: (), out: Function) -> bool {
        v matches Val::Object(o) && out@ == o && o.class is Callable
    }

    open spec fn err_rel(v: Val, strict: bool, config: (), e: Error) -> bool {
        e == Error::typed(ErrorMessage::ExpectedFunction)
    }

    fn from_value(cx: &mut Context, value: &Value, strict: bool, config: ()) -> (r: Result<
        Function,
        Error,
    >) {
        match value {
            Value::Object(o) => match o.class {
                ObjectClass::Callable => {
                    assert_same_compartment(cx, o);
                    Ok(Function { data: Box::new(clone_object(o)) })
                },
                _ => Err(Error::new(ErrorMessage::ExpectedFunction, ErrorKind::Type)),
            },
            _ => Err(Error::new(ErrorMessage::ExpectedFunction, ErrorKind::Type)),
        }
    }
}

impl FromValue for Value {
    type Config = ();

    /// The generic passthrough: only the isolation-domain check applies
    /// (stated here as the validity precondition), and the value is
    /// re-rooted under the current context. Strictness is not applicable
    /// and the conversion never fails.
    open spec fn converts(v: Val, strict: bool, config: ()) -> bool {
        true
    }

    open spec fn ok_rel(v: Val, strict: bool, config: (), out: Value) -> bool {
        value_view(out) == v
    }

    open spec fn err_rel(v: Val, strict: bool, config: (), e: Error) -> bool {
        false
    }

    fn from_value(cx: &mut Context, value: &Value, strict: bool, config: ()) -> (r: Result<
        Value,
        Error,
    >) {
        match value {
            Value::Object(o) => assert_same_compartment(cx, o),
            _ => (),
        }
        Ok(clone_value(value))
    }
}

} // verus!

verus! {

use vstd::arithmetic::div_mod::lemma_fundamental_div_mod;
use vstd::arithmetic::div_mod::lemma_fundamental_div_mod_converse;
use vstd::arithmetic::div_mod::lemma_mod_bound;

use crate::value::NumKind;
use crate::value::coerce_number;
use crate::value::to_num_of;

/// The numeric edge-case policy of an integer conversion.
#[derive(Clone, Copy, PartialEq, Eq, Structural, Debug)]
pub enum ConversionBehavior {
    /// The default policy: wrap using modular arithmetic consistent with
    /// two's-complement truncation; never fails.
    Wrap,
    /// Saturate to the bounds of the target type; never fails.
    Clamp,
    /// Fail the conversion if the mathematical value is non-integral,
    /// non-finite, or outside the representable range.
    EnforceRange,
}

/// The truncation toward zero that the wrapping policy starts from: a
/// non-finite value wraps to zero, and a `Huge` value is divisible by
/// every modulus in use, so it contributes zero as well.
pub open spec fn wrap_base(k: NumKind) -> int {
    match k {
        NumKind::Finite { trunc, integral } => trunc as int,
        _ => 0,
    }
}

/// The result of the wrapping policy for a target of modulus `m`
/// (signed when `lo != 0`): the truncation reduced modulo `m` into the
/// target's own range.
pub open spec fn wrap_val(k: NumKind, lo: int, m: int) -> int {
    let r = wrap_base(k) % m;
    if lo != 0 && r >= m / 2 {
        r - m
    } else {
        r
    }
}

/// The result of the clamping policy for a target with bounds
/// `[lo, hi]`: `NaN` saturates to zero, infinities and `Huge` values to
/// the nearer bound, and a finite truncation is clamped.
pub open spec fn clamp_val(k: NumKind, lo: int, hi: int) -> int {
    match k {
        NumKind::NaN => 0,
        NumKind::Infinite { negative } => if negative {
            lo
        } else {
            hi
        },
        NumKind::Huge { negative } => if negative {
            lo
        } else {
            hi
        },
        NumKind::Finite { trunc, integral } => if trunc < lo {
            lo
        } else if trunc > hi {
            hi
        } else {
            trunc as int
        },
    }
}

/// The full integer conversion for a target with bounds `[lo, hi]` and
/// modulus `m`: strict mode rejects non-numbers before any coercion;
/// a throwing coercion hook surfaces as the unspecified-kind error; and
/// the configured policy decides the rest.
pub open spec fn int_conv(v: Val, strict: bool, config: ConversionBehavior, lo: int, hi: int, m: int) -> Result<int, Error> {
    if strict && !(v is Number) {
        Result::Err(Error::typed(ErrorMessage::ExpectedNumberInStrictConversion))
    } else {
        match to_num_of(v) {
            Option::None => Result::Err(Error::none_spec()),
            Option::Some(k) => match config {
                ConversionBehavior::Wrap => Result::Ok(wrap_val(k, lo, m)),
                ConversionBehavior::Clamp => Result::Ok(clamp_val(k, lo, hi)),
                ConversionBehavior::EnforceRange => {
                    if k matches NumKind::Finite { trunc, integral } && integral && lo <= trunc <= hi {
                        Result::Ok(wrap_base(k))
                    } else {
                        Result::Err(Error::typed(ErrorMessage::ValueOutOfRange))
                    }
                },
            },
        }
    }
}

/// The shared executable core of the integer conversions, over `i128`
/// arithmetic. The bounds describe either an unsigned target
/// (`lo == 0`, `hi == m - 1`) or a signed one (`lo == -m / 2`,
/// `hi == m / 2 - 1`), for a power-of-two modulus up to 2^64.
fn int_from_value_core(cx: &mut Context, value: &Value, strict: bool, config: ConversionBehavior, lo: i128, hi: i128, m: i128) -> (r: Result<i128, Error>)
    requires
        val_valid(value@, old(cx).compartment as int),
        m == 256 || m == 65536 || m == 4294967296 || m == 18446744073709551616,
        lo == 0 || lo == -m / 2,
        hi == lo + m - 1,
    ensures
        final(cx).compartment == old(cx).compartment,
        final(cx).roots@ == old(cx).roots@,
        match r {
            Result::Ok(x) => int_conv(value@, strict, config, lo as int, hi as int, m as int)
                == Result::<int, Error>::Ok(x as int) && lo <= x <= hi,
            Result::Err(e) => int_conv(value@, strict, config, lo as int, hi as int, m as int)
                == Result::<int, Error>::Err(e),
        },
{
    let is_number = match value {
        Value::Number(n) => true,
        _ => false,
    };
    if strict && !is_number {
        return Err(Error::new(ErrorMessage::ExpectedNumberInStrictConversion, ErrorKind::Type));
    }
    let k = match coerce_number(value) {
        Some(k) => k,
        None => {
            return Err(Error::unspecified());
        },
    };
    proof {
        crate::value::lemma_to_num_wf(value@, old(cx).compartment as int);
    }
    match config {
        ConversionBehavior::Wrap => {
            let t: i128 = match k {
                NumKind::Finite { trunc, integral } => trunc,
                _ => 0,
            };
            let (neg, mag): (bool, i128) = if t < 0 {
                (true, -t)
            } else {
                (false, t)
            };
            let mm = mag % m;
            let r0: i128 = if neg && mm != 0 {
                m - mm
            } else {
                mm
            };
            proof {
                lemma_mod_bound(mag as int, m as int);
                if neg {
                    lemma_fundamental_div_mod(mag as int, m as int);
                    if mm != 0 {
                        lemma_fundamental_div_mod_converse(
                            t as int,
                            m as int,
                            -(mag as int / m as int) - 1,
                            m - mm,
                        );
                    } else {
                        lemma_fundamental_div_mod_converse(
                            t as int,
                            m as int,
                            -(mag as int / m as int),
                            0,
                        );
                    }
                }
                assert(r0 == wrap_base(k) % (m as int));
            }
            let out: i128 = if lo != 0 && r0 >= m / 2 {
                r0 - m
            } else {
                r0
            };
            Ok(out)
        },
        ConversionBehavior::Clamp => {
            match k {
                NumKind::NaN => Ok(0),
                NumKind::Infinite { negative } => Ok(if negative { lo } else { hi }),
                NumKind::Huge { negative } => Ok(if negative { lo } else { hi }),
                NumKind::Finite { trunc, integral } => Ok(
                    if trunc < lo {
                        lo
                    } else if trunc > hi {
                        hi
                    } else {
                        trunc
                    },
                ),
            }
        },
        ConversionBehavior::EnforceRange => {
            match k {
                NumKind::Finite { trunc, integral } => {
                    if integral && lo <= trunc && trunc <= hi {
                        Ok(trunc)
                    } else {
                        Err(Error::new(ErrorMessage::ValueOutOfRange, ErrorKind::Type))
                    }
                },
                _ => Err(Error::new(ErrorMessage::ValueOutOfRange, ErrorKind::Type)),
            }
        },
    }
}

} // verus!

verus! {

impl FromValue for u8 {
    type Config = ConversionBehavior;

    /// Succeeds exactly where the integer conversion for this width and
    /// signedness does under the configured policy.
    open spec fn converts(v: Val, strict: bool, config: ConversionBehavior) -> bool {
        int_conv(v, strict, config, 0, 255, 256) is Ok
    }

    open spec fn ok_rel(v: Val, strict: bool, config: ConversionBehavior, out: u8) -> bool {
        int_conv(v, strict, config, 0, 255, 256) == Result::<int, Error>::Ok(out as int)
    }

    open spec fn err_rel(v: Val, strict: bool, config: ConversionBehavior, e: Error) -> bool {
        int_conv(v, strict, config, 0, 255, 256) == Result::<int, Error>::Err(e)
    }

    fn from_value(cx: &mut Context, value: &Value, strict: bool, config: ConversionBehavior) -> (r:
        Result<u8, Error>) {
        match int_from_value_core(cx, value, strict, config, 0, 255, 256) {
            Ok(x) => Ok(x as u8),
            Err(e) => Err(e),
        }
    }
}

impl FromValue for u16 {
    type Config = ConversionBehavior;

    /// Succeeds exactly where the integer conversion for this width and
    /// signedness does under the configured policy.
    open spec fn converts(v: Val, strict: bool, config: ConversionBehavior) -> bool {
        int_conv(v, strict, config, 0, 65535, 65536) is Ok
    }

    open spec fn ok_rel(v: Val, strict: bool, config: ConversionBehavior, out: u16) -> bool {
        int_conv(v, strict, config, 0, 65535, 65536) == Result::<int, Error>::Ok(out as int)
    }

    open spec fn err_rel(v: Val, strict: bool, config: ConversionBehavior, e: Error) -> bool {
        int_conv(v, strict, config, 0, 65535, 65536) == Result::<int, Error>::Err(e)
    }

    fn from_value(cx: &mut Context, value: &Value, strict: bool, config: ConversionBehavior) -> (r:
        Result<u16, Error>) {
        match int_from_value_core(cx, value, strict, config, 0, 65535, 65536) {
            Ok(x) => Ok(x as u16),
            Err(e) => Err(e),
        }
    }
}

impl FromValue for u32 {
    type Config = ConversionBehavior;

    /// Succeeds exactly where the integer conversion for this width and
    /// signedness does under the configured policy.
    open spec fn converts(v: Val, strict: bool, config: ConversionBehavior) -> bool {
        int_conv(v, strict, config, 0, 4294967295, 4294967296) is Ok
    }

    open spec fn ok_rel(v: Val, strict: bool, config: ConversionBehavior, out: u32) -> bool {
        int_conv(v, strict, config, 0, 4294967295, 4294967296) == Result::<int, Error>::Ok(out as int)
    }

    open spec fn err_rel(v: Val, strict: bool, config: ConversionBehavior, e: Error) -> bool {
        int_conv(v, strict, config, 0, 4294967295, 4294967296) == Result::<int, Error>::Err(e)
    }

    fn from_value(cx: &mut Context, value: &Value, strict: bool, config: ConversionBehavior) -> (r:
        Result<u32, Error>) {
        match int_from_value_core(cx, value, strict, config, 0, 4294967295, 4294967296) {
            Ok(x) => Ok(x as u32),
            Err(e) => Err(e),
        }
    }
}

impl FromValue for u64 {
    type Config = ConversionBehavior;

    /// Succeeds exactly where the integer conversion for this width and
    /// signedness does under the configured policy.
    open spec fn converts(v: Val, strict: bool, config: ConversionBehavior) -> bool {
        int_conv(v, strict, config, 0, 18446744073709551615, 18446744073709551616) is Ok
    }

    open spec fn ok_rel(v: Val, strict: bool, config: ConversionBehavior, out: u64) -> bool {
        int_conv(v, strict, config, 0, 18446744073709551615, 18446744073709551616) == Result::<int, Error>::Ok(out as int)
    }

    open spec fn err_rel(v: Val, strict: bool, config: ConversionBehavior, e: Error) -> bool {
        int_conv(v, strict, config, 0, 18446744073709551615, 18446744073709551616) == Result::<int, Error>::Err(e)
    }

    fn from_value(cx: &mut Context, value: &Value, strict: bool, config: ConversionBehavior) -> (r:
        Result<u64, Error>) {
        match int_from_value_core(cx, value, strict, config, 0, 18446744073709551615, 18446744073709551616) {
            Ok(x) => Ok(x as u64),
            Err(e) => Err(e),
        }
    }
}

impl FromValue for i8 {
    type Config = ConversionBehavior;

    /// Succeeds exactly where the integer conversion for this width and
    /// signedness does under the configured policy.
    open spec fn converts(v: Val, strict: bool, config: ConversionBehavior) -> bool {
        int_conv(v, strict, config, -128, 127, 256) is Ok
    }

    open spec fn ok_rel(v: Val, strict: bool, config: ConversionBehavior, out: i8) -> bool {
        int_conv(v, strict, config, -128, 127, 256) == Result::<int, Error>::Ok(out as int)
    }

    open spec fn err_rel(v: Val, strict: bool, config: ConversionBehavior, e: Error) -> bool {
        int_conv(v, strict, config, -128, 127, 256) == Result::<int, Error>::Err(e)
    }

    fn from_value(cx: &mut Context, value: &Value, strict: bool, config: ConversionBehavior) -> (r:
        Result<i8, Error>) {
        match int_from_value_core(cx, value, strict, config, -128, 127, 256) {
            Ok(x) => Ok(x as i8),
            Err(e) => Err(e),
        }
    }
}

impl FromValue for i16 {
    type Config = ConversionBehavior;

    /// Succeeds exactly where the integer conversion for this width and
    /// signedness does under the configured policy.
    open spec fn converts(v: Val, strict: bool, config: ConversionBehavior) -> bool {
        int_conv(v, strict, config, -32768, 32767, 65536) is Ok
    }

    open spec fn ok_rel(v: Val, strict: bool, config: ConversionBehavior, out: i16) -> bool {
        int_conv(v, strict, config, -32768, 32767, 65536) == Result::<int, Error>::Ok(out as int)
    }

    open spec fn err_rel(v: Val, strict: bool, config: ConversionBehavior, e: Error) -> bool {
        int_conv(v, strict, config, -32768, 32767, 65536) == Result::<int, Error>::Err(e)
    }

    fn from_value(cx: &mut Context, value: &Value, strict: bool, config: ConversionBehavior) -> (r:
        Result<i16, Error>) {
        match int_from_value_core(cx, value, strict, config, -32768, 32767, 65536) {
            Ok(x) => Ok(x as i16),
            Err(e) => Err(e),
        }
    }
}

impl FromValue for i32 {
    type Config = ConversionBehavior;

    /// Succeeds exactly where the integer conversion for this width and
    /// signedness does under the configured policy.
    open spec fn converts(v: Val, strict: bool, config: ConversionBehavior) -> bool {
        int_conv(v, strict, config, -2147483648, 2147483647, 4294967296) is Ok
    }

    open spec fn ok_rel(v: Val, strict: bool, config: ConversionBehavior, out: i32) -> bool {
        int_conv(v, strict, config, -2147483648, 2147483647, 4294967296) == Result::<int, Error>::Ok(out as int)
    }

    open spec fn err_rel(v: Val, strict: bool, config: ConversionBehavior, e: Error) -> bool {
        int_conv(v, strict, config, -2147483648, 2147483647, 4294967296) == Result::<int, Error>::Err(e)
    }

    fn from_value(cx: &mut Context, value: &Value, strict: bool, config: ConversionBehavior) -> (r:
        Result<i32, Error>) {
        match int_from_value_core(cx, value, strict, config, -2147483648, 2147483647, 4294967296) {
            Ok(x) => Ok(x as i32),
            Err(e) => Err(e),
        }
    }
}

impl FromValue for i64 {
    type Config = ConversionBehavior;

    /// Succeeds exactly where the integer conversion for this width and
    /// signedness does under the configured policy.
    open spec fn converts(v: Val, strict: bool, config: ConversionBehavior) -> bool {
        int_conv(v, strict, config, -9223372036854775808, 9223372036854775807, 18446744073709551616) is Ok
    }

    open spec fn ok_rel(v: Val, strict: bool, config: ConversionBehavior, out: i64) -> bool {
        int_conv(v, strict, config, -9223372036854775808, 9223372036854775807, 18446744073709551616) == Result::<int, Error>::Ok(out as int)
    }

    open spec fn err_rel(v: Val, strict: bool, config: ConversionBehavior, e: Error) -> bool {
        int_conv(v, strict, config, -9223372036854775808, 9223372036854775807, 18446744073709551616) == Result::<int, Error>::Err(e)
    }

    fn from_value(cx: &mut Context, value: &Value, strict: bool, config: ConversionBehavior) -> (r:
        Result<i64, Error>) {
        match int_from_value_core(cx, value, strict, config, -9223372036854775808, 9223372036854775807, 18446744073709551616) {
            Ok(x) => Ok(x as i64),
            Err(e) => Err(e),
        }
    }
}

} // verus!

verus! {

use crate::value::coerce_string;
use crate::value::to_str_of;

impl FromValue for String {
    type Config = ();

    /// Strict conversion requires a native string; loose conversion
    /// succeeds whenever the engine's string coercion does (an object's
    /// hook may throw).
    open spec fn converts(v: Val, strict: bool, config: ()) -> bool {
        if strict {
            v is Str
        } else {
            to_str_of(v) is Some
        }
    }

    /// The owned result carries exactly the coerced characters.
    open spec fn ok_rel(v: Val, strict: bool, config: (), out: String) -> bool {
        to_str_of(v) == Some(out@)
    }

    open spec fn err_rel(v: Val, strict: bool, config: (), e: Error) -> bool {
        if strict && !(v is Str) {
            e == Error::typed(ErrorMessage::ExpectedStringInStrictConversion)
        } else {
            e == Error::typed(ErrorMessage::UnableToConvertValueToString)
        }
    }

    fn from_value(cx: &mut Context, value: &Value, strict: bool, config: ()) -> (r: Result<
        String,
        Error,
    >) {
        let is_string = match value {
            Value::Str(s) => true,
            _ => false,
        };
        if strict && !is_string {
            return Err(Error::new(ErrorMessage::ExpectedStringInStrictConversion, ErrorKind::Type));
        }
        match coerce_string(value) {
            Some(s) => Ok(s),
            None => Err(Error::new(ErrorMessage::UnableToConvertValueToString, ErrorKind::Type)),
        }
    }
}

} // verus!

verus! {

use crate::value::lemma_vals_valid;
use crate::value::lemma_value_views;
use crate::value::value_views;

/// Does index `k` witness the first failure of a sequence conversion?
/// Every element before `k` converts; at `k` either an element fails to
/// convert and yields `e`, or the sequence is exhausted and the engine's
/// iteration step itself fails.
pub open spec fn seq_err_at<T: FromValue>(
    items: Seq<Val>,
    strict: bool,
    config: T::Config,
    fail_after: bool,
    e: Error,
    k: int,
) -> bool {
    0 <= k <= items.len() && (forall|j: int|
        0 <= j < k ==> T::converts(#[trigger] items[j], strict, config)) && if k < items.len() {
        !T::converts(items[k], strict, config) && T::err_rel(items[k], strict, config, e)
    } else {
        fail_after && e == Error::typed(ErrorMessage::FailedToExecuteNextOnIterator)
    }
}

/// The error relation of a sequence conversion over yielded items: some
/// index witnesses the first failure.
pub open spec fn seq_err<T: FromValue>(
    items: Seq<Val>,
    strict: bool,
    config: T::Config,
    fail_after: bool,
    e: Error,
) -> bool {
    exists|k: int| seq_err_at::<T>(items, strict, config, fail_after, e, k)
}

impl<T: FromValue> FromValue for Vec<T> where T::Config: Copy {
    type Config = <T as FromValue>::Config;

    /// The source must be an object (an array in strict mode) that the
    /// iteration protocol accepts; every yielded element must convert,
    /// and the engine must report completion rather than fail.
    open spec fn converts(v: Val, strict: bool, config: T::Config) -> bool {
        match v {
            Val::Object(o) => (!strict || o.class is Array) && match o.iter {
                IterV::Items { items, fail_after } => !fail_after && (forall|i: int|
                    0 <= i < items.len() ==> T::converts(#[trigger] items[i], strict, config)),
                _ => false,
            },
            _ => false,
        }
    }

    /// The result preserves iteration order exactly: element `i` of the
    /// output is `T`'s conversion of element `i` of the source, under the
    /// same strictness and a copy of the same configuration.
    open spec fn ok_rel(v: Val, strict: bool, config: T::Config, out: Vec<T>) -> bool {
        match v {
            Val::Object(o) => match o.iter {
                IterV::Items { items, fail_after } => out@.len() == items.len() && (forall|i: int|
                    0 <= i < items.len() ==> T::ok_rel(
                        #[trigger] items[i],
                        strict,
                        config,
                        out@[i],
                    )),
                _ => false,
            },
            _ => false,
        }
    }

    /// The error is the first failure on the conversion path: a
    /// non-object source, a non-array in strict mode, a failed or
    /// refused iterator, the error of the first element that does not
    /// convert (later elements are never attempted), or the distinct
    /// iteration-step failure after all yielded elements converted.
    open spec fn err_rel(v: Val, strict: bool, config: T::Config, e: Error) -> bool {
        match v {
            Val::Object(o) => {
                if strict && !(o.class is Array) {
                    e == Error::typed(ErrorMessage::ExpectedArray)
                } else {
                    match o.iter {
                        IterV::InitThrows => e == Error::typed(
                            ErrorMessage::FailedToInitialiseIterator,
                        ),
                        IterV::NotIterable => e == Error::typed(ErrorMessage::ExpectedIterable),
                        IterV::Items { items, fail_after } => seq_err::<T>(
                            items,
                            strict,
                            config,
                            fail_after,
                            e,
                        ),
                    }
                }
            },
            _ => e == Error::typed(ErrorMessage::ExpectedObject),
        }
    }

    fn from_value(cx: &mut Context, value: &Value, strict: bool, config: T::Config) -> (r: Result<
        Vec<T>,
        Error,
    >) {
        let o = match value {
            Value::Object(o) => o,
            _ => {
                return Err(Error::new(ErrorMessage::ExpectedObject, ErrorKind::Type));
            },
        };
        let is_array = match o.class {
            ObjectClass::Array => true,
            _ => false,
        };
        if strict && !is_array {
            return Err(Error::new(ErrorMessage::ExpectedArray, ErrorKind::Type));
        }
        let ghost go = obj_view(**o);
        let guard = ForOfIteratorGuard::new(cx);
        match &o.iter {
            Iterability::InitThrows => {
                guard.release(cx);
                Err(Error::new(ErrorMessage::FailedToInitialiseIterator, ErrorKind::Type))
            },
            Iterability::NotIterable => {
                guard.release(cx);
                Err(Error::new(ErrorMessage::ExpectedIterable, ErrorKind::Type))
            },
            Iterability::Items { items, fail_after } => {
                let ghost gitems = value_views(items@);
                proof {
                    lemma_value_views(items@);
                    lemma_vals_valid(gitems, old(cx).compartment as int);
                }
                let mut out: Vec<T> = Vec::new();
                let mut i: usize = 0;
                while i < items.len()
                    invariant
                        i <= items.len(),
                        out@.len() == i,
                        cx.compartment == old(cx).compartment,
                        cx.roots@ == old(cx).roots@ + 1,
                        guard.entered_at@ == old(cx).roots@,
                        gitems == value_views(items@),
                        gitems.len() == items@.len(),
                        forall|j: int|
                            0 <= j < items@.len() ==> gitems[j] == crate::value::value_view(
                                #[trigger] items@[j],
                            ),
                        forall|j: int|
                            0 <= j < gitems.len() ==> val_valid(
                                #[trigger] gitems[j],
                                old(cx).compartment as int,
                            ),
                        value@ == Val::Object(go),
                        go.iter == (IterV::Items { items: gitems, fail_after: *fail_after }),
                        !strict || go.class is Array,
                        forall|j: int|
                            0 <= j < i ==> T::converts(#[trigger] gitems[j], strict, config),
                        forall|j: int|
                            0 <= j < i ==> T::ok_rel(#[trigger] gitems[j], strict, config, out@[j]),
                    decreases items@.len() - i,
                {
                    match T::from_value(cx, &items[i], strict, config) {
                        Ok(t) => out.push(t),
                        Err(e) => {
                            proof {
                                assert(seq_err_at::<T>(
                                    gitems,
                                    strict,
                                    config,
                                    *fail_after,
                                    e,
                                    i as int,
                                ));
                                assert(seq_err::<T>(gitems, strict, config, *fail_after, e));
                                assert(Self::err_rel(value@, strict, config, e));
                                assert(!Self::converts(value@, strict, config));
                            }
                            guard.release(cx);
                            return Err(e);
                        },
                    }
                    i = i + 1;
                }
                if *fail_after {
                    let e = Error::new(ErrorMessage::FailedToExecuteNextOnIterator, ErrorKind::Type);
                    proof {
                        assert(seq_err_at::<T>(
                            gitems,
                            strict,
                            config,
                            *fail_after,
                            e,
                            gitems.len() as int,
                        ));
                        assert(seq_err::<T>(gitems, strict, config, *fail_after, e));
                        assert(Self::err_rel(value@, strict, config, e));
                    }
                    guard.release(cx);
                    return Err(e);
                }
                guard.release(cx);
                Ok(out)
            },
        }
    }
}

} // verus!
