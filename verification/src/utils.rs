//! Texts around the calculator: the greeting, result lines, and a test for
//! input that reads as a number.

use vstd::prelude::*;

verus! {

/// The greeting for `name`.
pub fn greet(name: &str) -> (greeting: String)
    ensures
        greeting@ == "Hello, "@ + name@ + "!"@,
{
    let mut greeting = String::from_str("Hello, ");
    greeting.append(name);
    greeting.append("!");
    greeting
}

/// The line that reports the value of `expression`. `result` is the value's
/// text as the caller rendered it, to two decimal places.
pub fn format_result(expression: &str, result: &str) -> (line: String)
    ensures
        line@ == expression@ + " = "@ + result@,
{
    let mut line = String::from_str(expression);
    line.append(" = ");
    line.append(result);
    line
}

/// Whether `c` is one of the ten ASCII decimal digits.
pub open spec fn is_digit(c: char) -> bool {
    '0' <= c <= '9'
}

/// Whether `c` may occur in the text of a number: a digit, a sign or the
/// decimal point.
pub open spec fn is_number_char(c: char) -> bool {
    is_digit(c) || c == '.' || c == '-' || c == '+'
}

/// The texts accepted as a number: only digits, signs and decimal points,
/// with at most one decimal point and at least one digit. Where a sign stands
/// is not looked at.
pub open spec fn is_valid_number(s: Seq<char>) -> bool {
    &&& forall|i: int| 0 <= i < s.len() ==> is_number_char(#[trigger] s[i])
    &&& forall|i: int, j: int| 0 <= i < j < s.len() && s[i] == '.' ==> s[j] != '.'
    &&& exists|i: int| 0 <= i < s.len() && is_digit(#[trigger] s[i])
}

/// Decides whether `value` reads as a number.
pub fn validate_number(value: &str) -> (valid: bool)
    ensures
        valid == is_valid_number(value@),
{
    if value.is_empty() {
        return false;
    }
    let mut has_decimal = false;
    let mut has_digit = false;

    for c in it: value.chars()
        invariant
            it.seq() == value@,
            forall|i: int| 0 <= i < it.index() ==> is_number_char(#[trigger] value@[i]),
            forall|i: int, j: int| 0 <= i < j < it.index() && value@[i] == '.' ==> value@[j] != '.',
            has_decimal == (exists|i: int| 0 <= i < it.index() && value@[i] == '.'),
            has_digit == (exists|i: int| 0 <= i < it.index() && is_digit(#[trigger] value@[i])),
    {
        let digit = '0' <= c && c <= '9';
        if c == '.' {
            if has_decimal {
                return false;
            }
            has_decimal = true;
        } else if !digit && c != '-' && c != '+' {
            return false;
        } else if digit {
            has_digit = true;
        }
    }
    has_digit
}

} // verus!
