use vstd::prelude::*;

use colored::Colorize;

use crate::context::Context;
use crate::value::Date;
use crate::value::DateData;

verus! {

use vstd::string::StringExecFns;

/// A colour that the inspection formatter may apply to its output.
#[derive(Clone, Copy, PartialEq, Eq, Structural, Debug)]
pub enum Colour {
    Black,
    Red,
    Green,
    Yellow,
    Blue,
    Magenta,
    Cyan,
    White,
}

impl Colour {
    /// The colour's name, as the terminal-styling crate spells it.
    pub open spec fn name_spec(&self) -> Seq<char> {
        match *self {
            Colour::Black => "black"@,
            Colour::Red => "red"@,
            Colour::Green => "green"@,
            Colour::Yellow => "yellow"@,
            Colour::Blue => "blue"@,
            Colour::Magenta => "magenta"@,
            Colour::Cyan => "cyan"@,
            Colour::White => "white"@,
        }
    }

    pub fn name(&self) -> (s: &'static str)
        ensures
            s@ == self.name_spec(),
    {
        match *self {
            Colour::Black => "black",
            Colour::Red => "red",
            Colour::Green => "green",
            Colour::Yellow => "yellow",
            Colour::Blue => "blue",
            Colour::Magenta => "magenta",
            Colour::Cyan => "cyan",
            Colour::White => "white",
        }
    }
}

/// Configuration of the inspection formatter: the colours it applies.
#[derive(Clone, Copy, PartialEq, Eq, Structural, Debug)]
pub struct Config {
    pub date_colour: Colour,
}

/// Has a character sequence no ANSI escape character? The styling crate
/// rewrites embedded reset sequences, so its output is only stated for
/// text that carries no styling of its own.
pub open spec fn esc_free(s: Seq<char>) -> bool {
    forall|i: int| 0 <= i < s.len() ==> s[i] != '\u{1b}'
}

/// Relies on colored's `Colorize::color` for `&str` and the `Display` of
/// its `ColoredString`: when colouring is disabled (not a terminal, or
/// overridden by the environment) the input text is returned unchanged;
/// when enabled, the text — free of escape characters, so it is not
/// rewritten — is wrapped in an ANSI style prefix and a reset suffix.
/// Either way the input occurs inside the result.
#[verifier::external_body]
fn colorize(s: &str, colour: &str) -> (r: String)
    requires
        esc_free(s@),
    ensures
        r@ == s@ || (exists|pre: Seq<char>, post: Seq<char>| r@ == pre + s@ + post),
{
    s.color(colour).to_string()
}

/// The decimal rendering of one digit.
pub open spec fn digit_str(d: int) -> Seq<char> {
    if d == 0 {
        "0"@
    } else if d == 1 {
        "1"@
    } else if d == 2 {
        "2"@
    } else if d == 3 {
        "3"@
    } else if d == 4 {
        "4"@
    } else if d == 5 {
        "5"@
    } else if d == 6 {
        "6"@
    } else if d == 7 {
        "7"@
    } else if d == 8 {
        "8"@
    } else {
        "9"@
    }
}

/// The decimal rendering of a non-negative integer.
pub open spec fn dec_digits(n: int) -> Seq<char>
    decreases n,
{
    if n < 10 {
        digit_str(n)
    } else {
        dec_digits(n / 10) + digit_str(n % 10)
    }
}

/// Zero-padded rendering to at least two digits.
pub open spec fn pad2(n: int) -> Seq<char> {
    if n < 10 {
        "0"@ + dec_digits(n)
    } else {
        dec_digits(n)
    }
}

/// Zero-padded rendering to at least four digits.
pub open spec fn pad4(n: int) -> Seq<char> {
    if n < 10 {
        "000"@ + dec_digits(n)
    } else if n < 100 {
        "00"@ + dec_digits(n)
    } else if n < 1000 {
        "0"@ + dec_digits(n)
    } else {
        dec_digits(n)
    }
}

/// Appends the decimal rendering of `n`.
fn push_decimal(out: &mut String, n: u32)
    ensures
        final(out)@ == old(out)@ + dec_digits(n as int),
    decreases n,
{
    if n >= 10 {
        push_decimal(out, n / 10);
    }
    let d = n % 10;
    push_digit(out, d);
    proof {
        if n >= 10 {
            assert(final(out)@ =~= old(out)@ + dec_digits(n as int));
        } else {
            assert(final(out)@ =~= old(out)@ + dec_digits(n as int));
        }
    }
}

/// Appends one decimal digit.
fn push_digit(out: &mut String, d: u32)
    requires
        d < 10,
    ensures
        final(out)@ == old(out)@ + digit_str(d as int),
{
    if d == 0 {
        out.append("0");
    } else if d == 1 {
        out.append("1");
    } else if d == 2 {
        out.append("2");
    } else if d == 3 {
        out.append("3");
    } else if d == 4 {
        out.append("4");
    } else if d == 5 {
        out.append("5");
    } else if d == 6 {
        out.append("6");
    } else if d == 7 {
        out.append("7");
    } else if d == 8 {
        out.append("8");
    } else {
        out.append("9");
    }
}

} // verus!

verus! {

/// Appends the two-digit zero-padded rendering of `n`.
fn push_pad2(out: &mut String, n: u32)
    ensures
        final(out)@ == old(out)@ + pad2(n as int),
{
    if n < 10 {
        out.append("0");
    }
    push_decimal(out, n);
    proof {
        assert(final(out)@ =~= old(out)@ + pad2(n as int));
    }
}

/// Appends the four-digit zero-padded rendering of `n`.
fn push_pad4(out: &mut String, n: u32)
    ensures
        final(out)@ == old(out)@ + pad4(n as int),
{
    if n < 10 {
        out.append("000");
    } else if n < 100 {
        out.append("00");
    } else if n < 1000 {
        out.append("0");
    }
    push_decimal(out, n);
    proof {
        assert(final(out)@ =~= old(out)@ + pad4(n as int));
    }
}

/// The text of a date: its civil fields in a fixed layout,
/// `YYYY-MM-DD HH:MM:SS UTC`.
pub open spec fn date_text(d: DateData) -> Seq<char> {
    pad4(d.year as int) + "-"@ + pad2(d.month as int) + "-"@ + pad2(d.day as int) + " "@ + pad2(
        d.hour as int,
    ) + ":"@ + pad2(d.minute as int) + ":"@ + pad2(d.second as int) + " UTC"@
}

/// Are a date's fields renderable: a civil date of the common era with
/// in-range fields? The formatter requires a valid date besides — a date
/// that fails to unbox is a fatal programming error, not a recoverable
/// one, so the contract excludes it.
pub open spec fn date_renderable(d: DateData) -> bool {
    &&& d.valid
    &&& 0 <= d.year <= 9999
    &&& 1 <= d.month <= 12
    &&& 1 <= d.day <= 31
    &&& d.hour < 24
    &&& d.minute < 60
    &&& d.second < 60
}

/// Formats a date as a string using the given configuration: the date's
/// text in the fixed civil layout, in the configured colour. The text of
/// the date always occurs in the result; whether the styling codes
/// surround it depends on the terminal environment alone.
pub fn format_date(cx: &Context, cfg: Config, date: &Date) -> (s: String)
    requires
        date_renderable(date.data),
    ensures
        exists|pre: Seq<char>, post: Seq<char>| s@ == pre + date_text(date.data) + post,
{
    let d = date.data;
    let mut text = String::new();
    push_pad4(&mut text, d.year as u32);
    text.append("-");
    push_pad2(&mut text, d.month as u32);
    text.append("-");
    push_pad2(&mut text, d.day as u32);
    text.append(" ");
    push_pad2(&mut text, d.hour as u32);
    text.append(":");
    push_pad2(&mut text, d.minute as u32);
    text.append(":");
    push_pad2(&mut text, d.second as u32);
    text.append(" UTC");
    proof {
        assert(text@ =~= date_text(d));
        lemma_date_text_esc_free(d);
    }
    let r = colorize(text.as_str(), cfg.date_colour.name());
    proof {
        if r@ == text@ {
            assert(r@ =~= Seq::<char>::empty() + date_text(d) + Seq::<char>::empty());
        }
    }
    r
}

} // verus!

verus! {

use crate::error::Error;
use crate::error::ErrorKind;
use crate::error::ErrorMessage;
use crate::value::Value;
use crate::value::coerce_string;
use crate::value::to_str_of;

/// The class of a boxed primitive, as the engine's unboxing reports it.
/// Any other class is impossible for a successfully unboxed primitive —
/// reaching one would be a fatal invariant violation, never a
/// recoverable error — so the model's type leaves it out structurally.
#[derive(Clone, Copy, PartialEq, Eq, Structural, Debug)]
pub enum BoxedClass {
    Boolean,
    Number,
    Str,
    BigInt,
}

/// Formats a primitive (non-object) value as text: the same characters
/// the engine's string coercion gives it.
pub fn format_primitive(cx: &Context, cfg: Config, value: &Value) -> (s: String)
    requires
        !(value@ is Object),
    ensures
        to_str_of(value@) == Some(s@),
{
    match coerce_string(value) {
        Some(s) => s,
        None => String::new(),  // unreachable: every primitive coerces
    }
}

/// The fixed notice for the one boxed class whose formatting is not
/// implemented.
pub open spec fn bigint_notice() -> Seq<char> {
    "Unimplemented Formatting: BigInt"@
}

/// Formats a boxed primitive from its unboxed value and reported class:
/// boxed booleans, numbers and strings format as the primitive they
/// box; a boxed big integer yields the fixed unimplemented notice.
pub fn format_boxed(cx: &Context, cfg: Config, unboxed: &Value, class: BoxedClass) -> (s: String)
    requires
        !(unboxed@ is Object),
    ensures
        match class {
            BoxedClass::BigInt => s@ == bigint_notice(),
            _ => to_str_of(unboxed@) == Some(s@),
        },
{
    match class {
        BoxedClass::BigInt => {
            let mut s = String::new();
            s.append("Unimplemented Formatting: BigInt");
            proof {
                assert(s@ =~= bigint_notice());
            }
            s
        },
        _ => format_primitive(cx, cfg, unboxed),
    }
}

} // verus!

verus! {

proof fn lemma_digit_str_esc_free(d: int)
    ensures
        esc_free(digit_str(d)),
{
    reveal_strlit("0");
    reveal_strlit("1");
    reveal_strlit("2");
    reveal_strlit("3");
    reveal_strlit("4");
    reveal_strlit("5");
    reveal_strlit("6");
    reveal_strlit("7");
    reveal_strlit("8");
    reveal_strlit("9");
}

proof fn lemma_esc_free_concat(a: Seq<char>, b: Seq<char>)
    requires
        esc_free(a),
        esc_free(b),
    ensures
        esc_free(a + b),
{
    assert forall|i: int| 0 <= i < (a + b).len() implies (a + b)[i] != '\u{1b}' by {
        if i < a.len() {
            assert((a + b)[i] == a[i]);
        } else {
            assert((a + b)[i] == b[i - a.len()]);
        }
    }
}

proof fn lemma_dec_digits_esc_free(n: int)
    ensures
        esc_free(dec_digits(n)),
    decreases n,
{
    if n < 10 {
        lemma_digit_str_esc_free(n);
    } else {
        lemma_dec_digits_esc_free(n / 10);
        lemma_digit_str_esc_free(n % 10);
        lemma_esc_free_concat(dec_digits(n / 10), digit_str(n % 10));
    }
}

proof fn lemma_pads_esc_free(n: int)
    ensures
        esc_free(pad2(n)),
        esc_free(pad4(n)),
{
    reveal_strlit("0");
    reveal_strlit("00");
    reveal_strlit("000");
    lemma_dec_digits_esc_free(n);
    lemma_esc_free_concat("0"@, dec_digits(n));
    lemma_esc_free_concat("00"@, dec_digits(n));
    lemma_esc_free_concat("000"@, dec_digits(n));
}

proof fn lemma_date_text_esc_free(d: DateData)
    ensures
        esc_free(date_text(d)),
{
    reveal_strlit("-");
    reveal_strlit(" ");
    reveal_strlit(":");
    reveal_strlit(" UTC");
    lemma_pads_esc_free(d.year as int);
    lemma_pads_esc_free(d.month as int);
    lemma_pads_esc_free(d.day as int);
    lemma_pads_esc_free(d.hour as int);
    lemma_pads_esc_free(d.minute as int);
    lemma_pads_esc_free(d.second as int);
    let t1 = pad4(d.year as int) + "-"@;
    lemma_esc_free_concat(pad4(d.year as int), "-"@);
    let t2 = t1 + pad2(d.month as int);
    lemma_esc_free_concat(t1, pad2(d.month as int));
    let t3 = t2 + "-"@;
    lemma_esc_free_concat(t2, "-"@);
    let t4 = t3 + pad2(d.day as int);
    lemma_esc_free_concat(t3, pad2(d.day as int));
    let t5 = t4 + " "@;
    lemma_esc_free_concat(t4, " "@);
    let t6 = t5 + pad2(d.hour as int);
    lemma_esc_free_concat(t5, pad2(d.hour as int));
    let t7 = t6 + ":"@;
    lemma_esc_free_concat(t6, ":"@);
    let t8 = t7 + pad2(d.minute as int);
    lemma_esc_free_concat(t7, pad2(d.minute as int));
    let t9 = t8 + ":"@;
    lemma_esc_free_concat(t8, ":"@);
    let t10 = t9 + pad2(d.second as int);
    lemma_esc_free_concat(t9, pad2(d.second as int));
    lemma_esc_free_concat(t10, " UTC"@);
}

} // verus!
