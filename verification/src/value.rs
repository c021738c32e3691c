use vstd::prelude::*;

verus! {

/// The numeric core of an engine number, free of any binary representation:
/// what the conversion policies read.
#[derive(Clone, Copy, PartialEq, Eq, Structural, Debug)]
pub enum NumKind {
    /// Not a number.
    NaN,
    /// Positive or negative infinity.
    Infinite { negative: bool },
    /// A finite value of moderate magnitude: `trunc` is the value truncated
    /// toward zero, exact; `integral` says whether the value has no
    /// fractional part.
    Finite { trunc: i128, integral: bool },
    /// A finite value of magnitude at least 2^117. Such a value is always
    /// integral, lies outside every 64-bit range, and is divisible by 2^64.
    Huge { negative: bool },
}

/// An engine number as the model holds it: the numeric core, plus the
/// engine's decimal rendering of the value (the core abstracts the
/// underlying binary value, so the rendering cannot be recomputed from it).
#[derive(Debug)]
pub struct Num {
    pub kind: NumKind,
    pub text: String,
}

/// Specification-level image of a [`Num`].
pub ghost struct NumV {
    pub kind: NumKind,
    pub text: Seq<char>,
}

} // verus!

verus! {

broadcast use vstd::std_specs::vec::group_vec_axioms, vstd::seq::group_seq_axioms, vstd::string::group_string_axioms;

/// What an object yields to the for-of iteration protocol.
#[derive(Debug)]
pub enum Iterability {
    /// The object does not implement the iteration protocol.
    NotIterable,
    /// Looking the protocol up on the object itself raises an exception.
    InitThrows,
    /// The object yields `items` in order; if `fail_after` is set, the
    /// step after the last item fails at the engine level instead of
    /// reporting completion.
    Items { items: Vec<Value>, fail_after: bool },
}

/// The refined class of an object, as the engine's recognizers report it.
#[derive(Clone, Copy, PartialEq, Eq, Structural, Debug)]
pub enum ObjectClass {
    Plain,
    Array,
    Date(DateData),
    Promise,
    Callable,
}

/// The civil fields of a date object. `valid` is false for a date holding
/// the engine's invalid time value.
#[derive(Clone, Copy, PartialEq, Eq, Structural, Debug)]
pub struct DateData {
    pub valid: bool,
    pub year: i32,
    pub month: u8,
    pub day: u8,
    pub hour: u8,
    pub minute: u8,
    pub second: u8,
}

/// An object on the engine heap, as the model reads it: its refined class,
/// the isolation domain it belongs to, what it yields to iteration, and
/// the outcomes of its user-defined coercion hooks (`None` meaning the
/// hook raises an exception).
#[derive(Debug)]
pub struct ObjectData {
    pub class: ObjectClass,
    pub compartment: u32,
    pub iter: Iterability,
    pub to_number: Option<Num>,
    pub to_string: Option<String>,
}

/// An engine value, as the model holds it.
#[derive(Debug)]
pub enum Value {
    Undefined,
    Null,
    Boolean(bool),
    Number(Num),
    Str(String),
    Object(Box<ObjectData>),
}

/// Specification-level image of a [`Value`].
pub ghost enum Val {
    Undefined,
    Null,
    Boolean(bool),
    Number(NumV),
    Str(Seq<char>),
    Object(ObjV),
}

/// Specification-level image of an [`ObjectData`].
pub ghost struct ObjV {
    pub class: ClassV,
    pub compartment: int,
    pub iter: IterV,
    pub to_number: Option<NumV>,
    pub to_string: Option<Seq<char>>,
}

/// Specification-level image of an [`ObjectClass`].
pub ghost enum ClassV {
    Plain,
    Array,
    Date(DateData),
    Promise,
    Callable,
}

/// Specification-level image of an [`Iterability`].
pub ghost enum IterV {
    NotIterable,
    InitThrows,
    Items { items: Seq<Val>, fail_after: bool },
}

pub open spec fn num_view(n: Num) -> NumV {
    NumV { kind: n.kind, text: n.text@ }
}

pub open spec fn class_view(c: ObjectClass) -> ClassV {
    match c {
        ObjectClass::Plain => ClassV::Plain,
        ObjectClass::Array => ClassV::Array,
        ObjectClass::Date(d) => ClassV::Date(d),
        ObjectClass::Promise => ClassV::Promise,
        ObjectClass::Callable => ClassV::Callable,
    }
}

pub open spec fn value_view(v: Value) -> Val
    decreases v,
{
    match v {
        Value::Undefined => Val::Undefined,
        Value::Null => Val::Null,
        Value::Boolean(b) => Val::Boolean(b),
        Value::Number(n) => Val::Number(num_view(n)),
        Value::Str(s) => Val::Str(s@),
        Value::Object(o) => Val::Object(obj_view(*o)),
    }
}

pub open spec fn obj_view(o: ObjectData) -> ObjV
    decreases o,
{
    ObjV {
        class: class_view(o.class),
        compartment: o.compartment as int,
        iter: iter_view(o.iter),
        to_number: match o.to_number {
            Option::Some(n) => Option::Some(num_view(n)),
            Option::None => Option::None,
        },
        to_string: match o.to_string {
            Option::Some(s) => Option::Some(s@),
            Option::None => Option::None,
        },
    }
}

pub open spec fn iter_view(it: Iterability) -> IterV
    decreases it,
{
    match it {
        Iterability::NotIterable => IterV::NotIterable,
        Iterability::InitThrows => IterV::InitThrows,
        Iterability::Items { items, fail_after } => IterV::Items {
            items: value_views(items@),
            fail_after,
        },
    }
}

pub open spec fn value_views(items: Seq<Value>) -> Seq<Val>
    decreases items,
{
    if items.len() == 0 {
        Seq::empty()
    } else {
        seq![value_view(items[0])] + value_views(items.subrange(1, items.len() as int))
    }
}

/// The image of a sequence of values is its element-wise image.
pub proof fn lemma_value_views(items: Seq<Value>)
    ensures
        value_views(items).len() == items.len(),
        forall|i: int|
            0 <= i < items.len() ==> value_views(items)[i] == value_view(#[trigger] items[i]),
    decreases items.len(),
{
    if items.len() > 0 {
        let sub = items.subrange(1, items.len() as int);
        lemma_value_views(sub);
        assert forall|i: int|
            0 <= i < items.len() implies value_views(items)[i] == value_view(
            #[trigger] items[i],
        ) by {
            if i > 0 {
                assert(sub[i - 1] == items[i]);
            }
        }
    }
}

impl View for Value {
    type V = Val;

    open spec fn view(&self) -> Val {
        value_view(*self)
    }
}

impl View for ObjectData {
    type V = ObjV;

    open spec fn view(&self) -> ObjV {
        obj_view(*self)
    }
}

impl View for Num {
    type V = NumV;

    open spec fn view(&self) -> NumV {
        num_view(*self)
    }
}

} // verus!

verus! {

/// Magnitude bound of the `Finite` numeric core: 2^117. A host double of
/// magnitude at least 2^117 is an integer divisible by 2^64, so the model
/// folds all such values into `Huge`.
pub const FINITE_BOUND: i128 = 166153499473114484112975882535043072;

/// Well-formedness of a numeric core: a `Finite` truncation lies strictly
/// within the 2^117 magnitude bound.
pub open spec fn num_wf(k: NumKind) -> bool {
    match k {
        NumKind::Finite { trunc, integral } => -FINITE_BOUND < trunc < FINITE_BOUND,
        _ => true,
    }
}

/// Validity of a value with respect to the active isolation domain
/// `comp`: numeric cores are well-formed, and every object reachable
/// through the value, including what it yields to iteration, belongs to
/// `comp`.
pub open spec fn val_valid(v: Val, comp: int) -> bool
    decreases v,
{
    match v {
        Val::Number(n) => num_wf(n.kind),
        Val::Object(o) => obj_valid(o, comp),
        _ => true,
    }
}

pub open spec fn obj_valid(o: ObjV, comp: int) -> bool
    decreases o,
{
    &&& o.compartment == comp
    &&& match o.to_number {
        Option::Some(n) => num_wf(n.kind),
        Option::None => true,
    }
    &&& match o.iter {
        IterV::Items { items, fail_after } => vals_valid(items, comp),
        _ => true,
    }
}

pub open spec fn vals_valid(items: Seq<Val>, comp: int) -> bool
    decreases items,
{
    items.len() == 0 || (val_valid(items[0], comp) && vals_valid(
        items.subrange(1, items.len() as int),
        comp,
    ))
}

/// A sequence of values is valid exactly when each element is.
pub proof fn lemma_vals_valid(items: Seq<Val>, comp: int)
    ensures
        vals_valid(items, comp) <==> (forall|i: int|
            0 <= i < items.len() ==> val_valid(#[trigger] items[i], comp)),
    decreases items.len(),
{
    if items.len() > 0 {
        let sub = items.subrange(1, items.len() as int);
        lemma_vals_valid(sub, comp);
        assert forall|i: int|
            vals_valid(items, comp) && 0 <= i < items.len() implies val_valid(
            #[trigger] items[i],
            comp,
        ) by {
            if i > 0 {
                assert(sub[i - 1] == items[i]);
            }
        }
        if forall|i: int| 0 <= i < items.len() ==> val_valid(#[trigger] items[i], comp) {
            assert forall|i: int| 0 <= i < sub.len() implies val_valid(#[trigger] sub[i], comp) by {
                assert(sub[i] == items[i + 1]);
            }
        }
    }
}

/// The truthiness table of the engine's boolean coercion: `undefined`,
/// `null`, `false`, `NaN`, a zero number and the empty string are falsy;
/// every other value, objects included, is truthy.
pub open spec fn truthy(v: Val) -> bool {
    match v {
        Val::Undefined => false,
        Val::Null => false,
        Val::Boolean(b) => b,
        Val::Number(n) => num_truthy(n.kind),
        Val::Str(s) => s.len() > 0,
        Val::Object(o) => true,
    }
}

pub open spec fn num_truthy(k: NumKind) -> bool {
    match k {
        NumKind::NaN => false,
        NumKind::Finite { trunc, integral } => !(trunc == 0 && integral),
        _ => true,
    }
}

/// Is a character an ASCII decimal digit?
pub open spec fn is_digit(c: char) -> bool {
    48 <= c as int <= 57
}

pub open spec fn all_digits(s: Seq<char>) -> bool {
    forall|i: int| 0 <= i < s.len() ==> is_digit(#[trigger] s[i])
}

/// The integer a digit string denotes.
pub open spec fn digits_val(s: Seq<char>) -> int
    decreases s.len(),
{
    if s.len() == 0 {
        0
    } else {
        digits_val(s.drop_last()) * 10 + (s.last() as int - 48)
    }
}

pub proof fn lemma_digits_val_nonneg(s: Seq<char>)
    requires
        all_digits(s),
    ensures
        digits_val(s) >= 0,
    decreases s.len(),
{
    if s.len() > 0 {
        lemma_digits_val_nonneg(s.drop_last());
    }
}

/// The numeric core that the engine's numeric coercion gives a string, as
/// the model defines it: the empty string denotes zero; an optional sign
/// followed by decimal digits denotes that integer, folded to `Huge` at
/// the magnitude bound; anything else denotes `NaN`.
pub open spec fn str_num(s: Seq<char>) -> NumKind {
    if s.len() == 0 {
        NumKind::Finite { trunc: 0, integral: true }
    } else if s[0] == '-' {
        str_num_digits(true, s.subrange(1, s.len() as int))
    } else if s[0] == '+' {
        str_num_digits(false, s.subrange(1, s.len() as int))
    } else {
        str_num_digits(false, s)
    }
}

pub open spec fn str_num_digits(negative: bool, ds: Seq<char>) -> NumKind {
    if ds.len() == 0 || !all_digits(ds) {
        NumKind::NaN
    } else if digits_val(ds) < FINITE_BOUND {
        NumKind::Finite {
            trunc: if negative {
                (-digits_val(ds)) as i128
            } else {
                digits_val(ds) as i128
            },
            integral: true,
        }
    } else {
        NumKind::Huge { negative }
    }
}

/// The numeric core that the engine's numeric coercion yields for a
/// value, or `None` where the coercion raises an exception (a
/// user-defined hook of an object may throw).
pub open spec fn to_num_of(v: Val) -> Option<NumKind> {
    match v {
        Val::Undefined => Option::Some(NumKind::NaN),
        Val::Null => Option::Some(NumKind::Finite { trunc: 0, integral: true }),
        Val::Boolean(b) => Option::Some(
            NumKind::Finite { trunc: if b { 1 } else { 0 }, integral: true },
        ),
        Val::Number(n) => Option::Some(n.kind),
        Val::Str(s) => Option::Some(str_num(s)),
        Val::Object(o) => match o.to_number {
            Option::Some(n) => Option::Some(n.kind),
            Option::None => Option::None,
        },
    }
}

/// The characters that the engine's string coercion yields for a value,
/// or `None` where the coercion raises an exception.
pub open spec fn to_str_of(v: Val) -> Option<Seq<char>> {
    match v {
        Val::Undefined => Option::Some("undefined"@),
        Val::Null => Option::Some("null"@),
        Val::Boolean(b) => Option::Some(if b { "true"@ } else { "false"@ }),
        Val::Number(n) => Option::Some(n.text),
        Val::Str(s) => Option::Some(s),
        Val::Object(o) => o.to_string,
    }
}

} // verus!

verus! {

use vstd::string::StrSliceExecFns;
use vstd::string::StringExecFns;

/// The engine's boolean coercion over the model: the truthiness table.
pub fn coerce_boolean(value: &Value) -> (b: bool)
    ensures
        b == truthy(value@),
{
    match value {
        Value::Undefined => false,
        Value::Null => false,
        Value::Boolean(b) => *b,
        Value::Number(n) => match n.kind {
            NumKind::NaN => false,
            NumKind::Finite { trunc, integral } => !(trunc == 0 && integral),
            NumKind::Infinite { negative } => true,
            NumKind::Huge { negative } => true,
        },
        Value::Str(s) => s.unicode_len() > 0,
        Value::Object(o) => true,
    }
}

/// The engine's numeric coercion over the model: `None` where a
/// user-defined hook of an object raises an exception.
pub fn coerce_number(value: &Value) -> (r: Option<NumKind>)
    ensures
        r == to_num_of(value@),
{
    match value {
        Value::Undefined => Some(NumKind::NaN),
        Value::Null => Some(NumKind::Finite { trunc: 0, integral: true }),
        Value::Boolean(b) => Some(
            NumKind::Finite { trunc: if *b { 1 } else { 0 }, integral: true },
        ),
        Value::Number(n) => Some(n.kind),
        Value::Str(s) => Some(parse_number(s.as_str())),
        Value::Object(o) => match &o.to_number {
            Some(n) => Some(n.kind),
            None => None,
        },
    }
}

/// The engine's string coercion over the model: `None` where a
/// user-defined hook of an object raises an exception.
pub fn coerce_string(value: &Value) -> (r: Option<String>)
    ensures
        match r {
            Some(s) => to_str_of(value@) == Some(s@),
            None => to_str_of(value@) is None,
        },
{
    match value {
        Value::Undefined => Some(String::from_str("undefined")),
        Value::Null => Some(String::from_str("null")),
        Value::Boolean(b) => Some(
            if *b {
                String::from_str("true")
            } else {
                String::from_str("false")
            },
        ),
        Value::Number(n) => Some(n.text.clone()),
        Value::Str(s) => Some(s.clone()),
        Value::Object(o) => match &o.to_string {
            Some(s) => Some(s.clone()),
            None => None,
        },
    }
}

/// Parses the model's numeric coercion of a string: an optional sign and
/// decimal digits, exact up to the magnitude bound.
pub fn parse_number(s: &str) -> (k: NumKind)
    ensures
        k == str_num(s@),
{
    let n = s.unicode_len();
    if n == 0 {
        return NumKind::Finite { trunc: 0, integral: true };
    }
    let c0 = s.get_char(0);
    let negative: bool = c0 == '-';
    let start: usize = if c0 == '-' || c0 == '+' {
        1
    } else {
        0
    };
    let ghost ds = s@.subrange(start as int, n as int);
    let mut i: usize = start;
    let mut acc: i128 = 0;
    let mut huge = false;
    while i < n
        invariant
            start <= i <= n,
            n == s@.len(),
            n > 0,
            c0 == s@[0],
            negative == (c0 == '-'),
            start == (if c0 == '-' || c0 == '+' { 1int } else { 0int }),
            ds == s@.subrange(start as int, n as int),
            all_digits(s@.subrange(start as int, i as int)),
            !huge ==> 0 <= acc < FINITE_BOUND && acc == digits_val(
                s@.subrange(start as int, i as int),
            ),
            huge ==> digits_val(s@.subrange(start as int, i as int)) >= FINITE_BOUND,
        decreases n - i,
    {
        let c = s.get_char(i);
        let d = c as u32;
        if d < 48 || d > 57 {
            proof {
                assert(ds[i - start] == s@[i as int]);
                assert(!is_digit(ds[i - start]));
                assert(!all_digits(ds));
                if start == 0 {
                    assert(ds =~= s@);
                } else {
                    assert(c0 == '-' || c0 == '+');
                    assert(ds =~= s@.subrange(1, s@.len() as int));
                }
                assert(str_num_digits(true, ds) is NaN);
                assert(str_num_digits(false, ds) is NaN);
                assert(str_num(s@) is NaN);
            }
            return NumKind::NaN;
        }
        let ghost pre = s@.subrange(start as int, i as int);
        let ghost cur = s@.subrange(start as int, i + 1 as int);
        proof {
            assert(cur.drop_last() =~= pre);
            assert(cur.last() == s@[i as int]);
            assert(all_digits(cur)) by {
                assert(forall|j: int|
                    0 <= j < pre.len() ==> cur[j] == #[trigger] pre[j]);
            }
            lemma_digits_val_nonneg(pre);
        }
        if huge {
            proof {
                assert(digits_val(cur) == digits_val(pre) * 10 + (s@[i as int] as int - 48));
                assert(digits_val(pre) * 10 >= digits_val(pre)) by {
                    lemma_digits_val_nonneg(pre);
                }
            }
        } else {
            let dv: i128 = (d - 48) as i128;
            acc = acc * 10 + dv;
            if acc >= FINITE_BOUND {
                huge = true;
            }
        }
        i = i + 1;
    }
    proof {
        assert(s@.subrange(start as int, i as int) =~= ds);
        if start == 0 {
            assert(ds =~= s@);
        }
    }
    if start == 1 && n == 1 {
        assert(ds.len() == 0);
        return NumKind::NaN;
    }
    if huge {
        NumKind::Huge { negative }
    } else {
        if negative {
            NumKind::Finite { trunc: -acc, integral: true }
        } else {
            NumKind::Finite { trunc: acc, integral: true }
        }
    }
}

} // verus!

verus! {

impl Clone for Num {
    /// An exact copy: the numeric core and the rendering both carry over.
    fn clone(&self) -> (r: Num)
        ensures
            r == *self,
    {
        Num { kind: self.kind, text: self.text.clone() }
    }
}

impl Clone for Value {
    /// A fresh value with the same image as this one.
    fn clone(&self) -> (r: Value)
        ensures
            r@ == self@,
    {
        clone_value(self)
    }
}

pub fn clone_value(v: &Value) -> (r: Value)
    ensures
        value_view(r) == value_view(*v),
    decreases *v,
{
    match v {
        Value::Undefined => Value::Undefined,
        Value::Null => Value::Null,
        Value::Boolean(b) => Value::Boolean(*b),
        Value::Number(n) => Value::Number(n.clone()),
        Value::Str(s) => Value::Str(s.clone()),
        Value::Object(o) => Value::Object(Box::new(clone_object(o))),
    }
}

pub fn clone_object(o: &ObjectData) -> (r: ObjectData)
    ensures
        obj_view(r) == obj_view(*o),
    decreases *o,
{
    ObjectData {
        class: o.class,
        compartment: o.compartment,
        iter: clone_iter(&o.iter),
        to_number: match &o.to_number {
            Some(n) => Some(n.clone()),
            None => None,
        },
        to_string: match &o.to_string {
            Some(s) => Some(s.clone()),
            None => None,
        },
    }
}

pub fn clone_iter(it: &Iterability) -> (r: Iterability)
    ensures
        iter_view(r) == iter_view(*it),
    decreases *it,
{
    match it {
        Iterability::NotIterable => Iterability::NotIterable,
        Iterability::InitThrows => Iterability::InitThrows,
        Iterability::Items { items, fail_after } => Iterability::Items {
            items: clone_values(items),
            fail_after: *fail_after,
        },
    }
}

pub fn clone_values(items: &Vec<Value>) -> (r: Vec<Value>)
    ensures
        value_views(r@) == value_views(items@),
    decreases *items,
{
    let mut out: Vec<Value> = Vec::new();
    let mut j: usize = 0;
    while j < items.len()
        invariant
            j <= items.len(),
            out@.len() == j,
            forall|k: int|
                0 <= k < j ==> value_view(out@[k]) == value_view(#[trigger] items@[k]),
        decreases items@.len() - j,
    {
        out.push(clone_value(&items[j]));
        j = j + 1;
    }
    proof {
        lemma_value_views(out@);
        lemma_value_views(items@);
        assert forall|k: int|
            0 <= k < out@.len() implies value_views(out@)[k] == value_views(items@)[k] by {
            assert(value_view(out@[k]) == value_view(items@[k]));
        }
        assert(value_views(out@) =~= value_views(items@));
    }
    out
}

} // verus!

verus! {

/// A rooted handle to a value refined as a plain object.
#[derive(Debug)]
pub struct Object {
    pub data: Box<ObjectData>,
}

/// A rooted handle to a value refined as an array object.
#[derive(Debug)]
pub struct Array {
    pub data: Box<ObjectData>,
}

/// A rooted handle to a value refined as a date object.
#[derive(Debug)]
pub struct Date {
    pub data: DateData,
}

/// A rooted handle to a value refined as a promise object.
#[derive(Debug)]
pub struct Promise {
    pub data: Box<ObjectData>,
}

/// A rooted handle to a value refined as a callable object.
#[derive(Debug)]
pub struct Function {
    pub data: Box<ObjectData>,
}

impl View for Object {
    type V = ObjV;

    open spec fn view(&self) -> ObjV {
        obj_view(*self.data)
    }
}

impl View for Array {
    type V = ObjV;

    open spec fn view(&self) -> ObjV {
        obj_view(*self.data)
    }
}

impl View for Promise {
    type V = ObjV;

    open spec fn view(&self) -> ObjV {
        obj_view(*self.data)
    }
}

impl View for Function {
    type V = ObjV;

    open spec fn view(&self) -> ObjV {
        obj_view(*self.data)
    }
}

} // verus!

verus! {

/// Numeric coercion of a valid value yields a well-formed numeric core:
/// the bound carries over from the value itself, from an object's hook
/// outcome, or from the magnitude cap of the string parse.
pub proof fn lemma_to_num_wf(v: Val, comp: int)
    requires
        val_valid(v, comp),
    ensures
        match to_num_of(v) {
            Option::Some(k) => num_wf(k),
            Option::None => true,
        },
{
    match v {
        Val::Str(s) => {
            if s.len() > 0 && (s[0] == '-' || s[0] == '+') {
                lemma_str_num_digits_wf(s.subrange(1, s.len() as int));
            } else if s.len() > 0 {
                lemma_str_num_digits_wf(s);
            }
        },
        _ => {},
    }
}

proof fn lemma_str_num_digits_wf(ds: Seq<char>)
    ensures
        num_wf(str_num_digits(true, ds)),
        num_wf(str_num_digits(false, ds)),
{
    if ds.len() > 0 && all_digits(ds) {
        lemma_digits_val_nonneg(ds);
    }
}

} // verus!

verus! {

impl Value {
    /// Is this value natively boolean?
    pub fn is_boolean(&self) -> (b: bool)
        ensures
            b == (self@ is Boolean),
    {
        match self {
            Value::Boolean(x) => true,
            _ => false,
        }
    }

    /// Is this value natively a number?
    pub fn is_number(&self) -> (b: bool)
        ensures
            b == (self@ is Number),
    {
        match self {
            Value::Number(n) => true,
            _ => false,
        }
    }

    /// Is this value natively a string?
    pub fn is_string(&self) -> (b: bool)
        ensures
            b == (self@ is Str),
    {
        match self {
            Value::Str(s) => true,
            _ => false,
        }
    }

    /// Is this value an object?
    pub fn is_object(&self) -> (b: bool)
        ensures
            b == (self@ is Object),
    {
        match self {
            Value::Object(o) => true,
            _ => false,
        }
    }

    /// Is this value null or undefined?
    pub fn is_null_or_undefined(&self) -> (b: bool)
        ensures
            b == (self@ is Null || self@ is Undefined),
    {
        match self {
            Value::Null => true,
            Value::Undefined => true,
            _ => false,
        }
    }
}

} // verus!
