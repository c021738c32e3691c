use vstd::prelude::*;

use crate::conversions::ConversionBehavior;
use crate::conversions::FromValue;
use crate::conversions::int_conv;
use crate::conversions::seq_err_at;
use crate::conversions::wrap_base;
use crate::conversions::wrap_val;
use crate::error::Error;
use crate::value::IterV;
use crate::value::NumKind;
use crate::value::ObjV;
use crate::value::Val;
use crate::value::to_num_of;
use crate::value::truthy;

verus! {

use vstd::arithmetic::div_mod::lemma_mod_bound;
use vstd::arithmetic::div_mod::lemma_mod_multiples_vanish;
use vstd::arithmetic::div_mod::lemma_small_mod;

/// Boolean conversion: strict conversion succeeds exactly on a natively
/// boolean source; loose conversion always succeeds; every successful
/// result is the source's truthiness.
pub proof fn lemma_bool_conversion(v: Val, strict: bool)
    ensures
        <bool as FromValue>::converts(v, true, ()) <==> v is Boolean,
        <bool as FromValue>::converts(v, false, ()),
        forall|out: bool| <bool as FromValue>::ok_rel(v, strict, (), out) <==> out == truthy(v),
{
}

/// The enforce-range policy: conversion fails exactly when the coerced
/// mathematical value is non-integral, non-finite, or outside the
/// target's `[lo, hi]` range (a throwing coercion hook and a strict-mode
/// non-number fail as well, before the policy applies).
pub proof fn lemma_enforce_range(v: Val, strict: bool, lo: int, hi: int, m: int)
    requires
        !(strict && !(v is Number)),
        to_num_of(v) is Some,
    ensures
        int_conv(v, strict, ConversionBehavior::EnforceRange, lo, hi, m) is Ok <==> match to_num_of(
            v,
        ) {
            Option::Some(k) => k matches NumKind::Finite { trunc, integral } && integral && lo
                <= trunc <= hi,
            Option::None => false,
        },
{
}

/// The default (wrapping) policy: conversion always succeeds, the result
/// lies in the target's own range, and it is congruent to the coerced
/// value's truncation modulo the target's modulus — two's-complement
/// wrap-around.
pub proof fn lemma_wrap_policy(k: NumKind, lo: int, m: int)
    requires
        m > 0,
        m % 2 == 0,
        lo == 0 || lo == -m / 2,
    ensures
        wrap_val(k, lo, m) % m == wrap_base(k) % m,
        lo <= wrap_val(k, lo, m) < lo + m,
{
    let r = wrap_base(k) % m;
    lemma_mod_bound(wrap_base(k), m);
    lemma_small_mod(r as nat, m as nat);
    if lo != 0 && r >= m / 2 {
        lemma_mod_multiples_vanish(-1, r, m);
    }
}

/// The wrapping policy never fails: with the default configuration the
/// full integer conversion returns a value for every coercible source.
pub proof fn lemma_wrap_total(v: Val, strict: bool, lo: int, hi: int, m: int)
    requires
        !(strict && !(v is Number)),
        to_num_of(v) is Some,
    ensures
        int_conv(v, strict, ConversionBehavior::Wrap, lo, hi, m) is Ok,
{
}

/// Optional conversion: a null or undefined source always yields
/// "absent", whatever the target type; for every other source the
/// conversion succeeds exactly when the target's does, the present
/// result is the target's result, and the target's error propagates
/// unchanged.
pub proof fn lemma_option_conversion<T: FromValue>(v: Val, strict: bool, config: T::Config)
    ensures
        (v is Null || v is Undefined) ==> <Option<T> as FromValue>::converts(v, strict, config),
        (v is Null || v is Undefined) ==> forall|out: Option<T>|
            #![auto]
            <Option<T> as FromValue>::ok_rel(v, strict, config, out) <==> out is None,
        !(v is Null || v is Undefined) ==> (<Option<T> as FromValue>::converts(v, strict, config)
            <==> T::converts(v, strict, config)),
        !(v is Null || v is Undefined) ==> forall|t: T|
            #![auto]
            <Option<T> as FromValue>::ok_rel(v, strict, config, Some(t)) <==> T::ok_rel(
                v,
                strict,
                config,
                t,
            ),
        forall|e: Error|
            #![auto]
            <Option<T> as FromValue>::err_rel(v, strict, config, e) <==> (!(v is Null
                || v is Undefined) && T::err_rel(v, strict, config, e)),
{
}

/// Sequence conversion preserves source order: a successful result has
/// exactly one element per yielded source element, and element `i` of
/// the result is the target's conversion of element `i` of the source.
pub proof fn lemma_vec_order<T: FromValue>(
    v: Val,
    strict: bool,
    config: T::Config,
    out: Vec<T>,
    o: ObjV,
    items: Seq<Val>,
    fail_after: bool,
) where T::Config: Copy
    requires
        v == Val::Object(o),
        o.iter == (IterV::Items { items, fail_after }),
        <Vec<T> as FromValue>::ok_rel(v, strict, config, out),
    ensures
        out@.len() == items.len(),
        forall|i: int|
            0 <= i < items.len() ==> T::ok_rel(#[trigger] items[i], strict, config, out@[i]),
{
}

/// A failed sequence conversion surfaces the error of the first element
/// that does not convert, unchanged: if every element before `k`
/// converts and element `k` does not, the sequence conversion's error is
/// element `k`'s own error (later elements are never reached).
pub proof fn lemma_vec_first_error<T: FromValue>(
    v: Val,
    strict: bool,
    config: T::Config,
    e: Error,
    o: ObjV,
    items: Seq<Val>,
    fail_after: bool,
    k: int,
) where T::Config: Copy
    requires
        v == Val::Object(o),
        o.iter == (IterV::Items { items, fail_after }),
        !(strict && !(o.class is Array)),
        0 <= k < items.len(),
        forall|j: int| 0 <= j < k ==> T::converts(#[trigger] items[j], strict, config),
        !T::converts(items[k], strict, config),
        <Vec<T> as FromValue>::err_rel(v, strict, config, e),
    ensures
        T::err_rel(items[k], strict, config, e),
{
    let kk = choose|kk: int| seq_err_at::<T>(items, strict, config, fail_after, e, kk);
    if kk < k {
        assert(T::converts(items[kk], strict, config));
    }
    if kk > k {
        assert(T::converts(items[k], strict, config));
    }
    assert(kk == k);
}

/// Strict-mode sequence conversion rejects any non-array source object
/// with the array-expectation error; loose mode accepts any object that
/// the iteration protocol accepts, and rejects one it does not with the
/// distinct iterable-expectation error.
pub proof fn lemma_sequence_strictness<T: FromValue>(
    v: Val,
    config: T::Config,
    o: ObjV,
    e: Error,
) where T::Config: Copy
    requires
        v == Val::Object(o),
    ensures
        !(o.class is Array) && <Vec<T> as FromValue>::err_rel(v, true, config, e) ==> e
            == Error::typed(crate::error::ErrorMessage::ExpectedArray),
        !(o.class is Array) ==> !<Vec<T> as FromValue>::converts(v, true, config),
        (o.iter is NotIterable && <Vec<T> as FromValue>::err_rel(v, false, config, e)) ==> e
            == Error::typed(crate::error::ErrorMessage::ExpectedIterable),
        (o.iter matches IterV::Items { items, fail_after } && !fail_after && (forall|i: int|
            0 <= i < items.len() ==> T::converts(#[trigger] items[i], false, config)))
            ==> <Vec<T> as FromValue>::converts(v, false, config),
{
}

} // verus!
