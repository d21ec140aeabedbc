//! The external form of a decoded machine word.

use crate::tags::{decode, decode_spec, Value};
use vstd::prelude::*;

verus! {

/// A word that has no external form: a heap value, or a word without a tag.
#[derive(Clone, Copy, Debug, PartialEq, Eq)]
pub struct UnsupportedVariantError {
    /// The word as it came.
    pub word: i32,
}

/// The code point of the digit zero; the other nine digits follow it.
pub const DIGIT_ZERO: u8 = 48;

/// The character of a decimal digit.
pub open spec fn digit_char(digit: int) -> char {
    (DIGIT_ZERO as int + digit) as char
}

/// The decimal digits of a natural number, most significant first, with no
/// leading zero but for zero itself.
pub open spec fn decimal_digits(n: nat) -> Seq<char>
    decreases n,
{
    if n < 10 {
        seq![digit_char(n as int)]
    } else {
        decimal_digits(n / 10).push(digit_char((n % 10) as int))
    }
}

/// An integer in decimal, with a minus sign in front if it is negative.
pub open spec fn decimal(n: int) -> Seq<char> {
    if n < 0 {
        seq!['-'] + decimal_digits((-n) as nat)
    } else {
        decimal_digits(n as nat)
    }
}

/// The external form of a value: an integer in decimal, a character behind
/// `#\`, a boolean as `#t` or `#f`. The other values have none.
pub open spec fn external_form(value: Value) -> Option<Seq<char>> {
    match value {
        Value::Fixnum(n) => Some(decimal(n as int)),
        Value::Char(code) => Some(seq!['#', '\\', code as char]),
        Value::Bool(truth) => Some(
            if truth {
                seq!['#', 't']
            } else {
                seq!['#', 'f']
            },
        ),
        _ => None,
    }
}

/// Appends one character to a string, by `String::push` of the standard
/// library: the string afterwards is the string before with `c` at its end.
#[verifier::external_body]
fn push_char(text: &mut String, c: char)
    ensures
        final(text)@ == old(text)@.push(c),
{
    text.push(c)
}

/// Appends the decimal digits of `n` to `text`.
fn push_decimal_digits(text: &mut String, n: u32)
    ensures
        final(text)@ == old(text)@ + decimal_digits(n as nat),
    decreases n,
{
    if n >= 10 {
        push_decimal_digits(text, n / 10);
    }
    let digit: u8 = (n % 10) as u8;
    push_char(text, (DIGIT_ZERO + digit) as char);
}

/// Renders a machine word in its external form, or says that it has none.
pub fn render(word: i32) -> (text: Result<String, UnsupportedVariantError>)
    ensures
        match external_form(decode_spec(word)) {
            Some(form) => text.is_ok() && text.unwrap()@ == form,
            None => text == Err::<String, UnsupportedVariantError>(
                UnsupportedVariantError { word },
            ),
        },
{
    let mut out = String::new();
    match decode(word) {
        Value::Fixnum(n) => {
            if n < 0 {
                push_char(&mut out, '-');
                push_decimal_digits(&mut out, (-(n as i64)) as u32);
            } else {
                push_decimal_digits(&mut out, n as u32);
            }
            Ok(out)
        },
        Value::Char(code) => {
            push_char(&mut out, '#');
            push_char(&mut out, '\\');
            push_char(&mut out, code as char);
            Ok(out)
        },
        Value::Bool(truth) => {
            push_char(&mut out, '#');
            push_char(&mut out, if truth { 't' } else { 'f' });
            Ok(out)
        },
        _ => Err(UnsupportedVariantError { word }),
    }
}

} // verus!
