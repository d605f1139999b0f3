//! Temperature conversion held in exact integer arithmetic.
//!
//! A Celsius reading is kept as a whole number of ninths of a degree, so that
//! the Fahrenheit formula `(f - 32) * 5 / 9` never loses precision.

use vstd::prelude::*;

verus! {

/// The decimal text of a natural number, without leading zeros.
pub open spec fn decimal(n: nat) -> Seq<char>
    decreases n,
{
    if n < 10 {
        seq![digit_char(n)]
    } else {
        decimal(n / 10).push(digit_char(n % 10))
    }
}

/// The character of a single decimal digit.
pub open spec fn digit_char(d: nat) -> char {
    if d == 0 { '0' }
    else if d == 1 { '1' }
    else if d == 2 { '2' }
    else if d == 3 { '3' }
    else if d == 4 { '4' }
    else if d == 5 { '5' }
    else if d == 6 { '6' }
    else if d == 7 { '7' }
    else if d == 8 { '8' }
    else { '9' }
}

/// The decimal text of an integer, with a leading `-` when it is negative.
pub open spec fn signed_decimal(i: int) -> Seq<char> {
    if i < 0 {
        seq!['-'] + decimal((-i) as nat)
    } else {
        decimal(i as nat)
    }
}

/// Whether a unit tag names degrees Fahrenheit.
pub open spec fn is_fahrenheit(unit: Seq<char>) -> bool {
    unit.len() == 1 && unit[0] == 'F'
}

/// A Fahrenheit reading in ninths of a degree Celsius: `(f - 32) * 5 / 9` degrees.
pub open spec fn fahrenheit_ninths(fahrenheit: int) -> int {
    (fahrenheit - 32) * 5
}

/// A reading in the given unit, in ninths of a degree Celsius. Any unit other
/// than Fahrenheit is taken as Celsius already.
pub open spec fn celsius_ninths(value: int, unit: Seq<char>) -> int {
    if is_fahrenheit(unit) {
        fahrenheit_ninths(value)
    } else {
        value * 9
    }
}

/// The tenths of a degree nearest to `ninths / 9` degrees. A value of ninths
/// never lies halfway between two tenths, so the nearest one is unique.
pub open spec fn nearest_tenths(ninths: int) -> int {
    if ninths >= 0 {
        (20 * ninths + 9) / 18
    } else {
        -((-20 * ninths + 9) / 18)
    }
}

/// The text of a number of tenths with exactly one decimal place.
pub open spec fn one_decimal_text(tenths: int) -> Seq<char> {
    let m = if tenths < 0 { -tenths } else { tenths };
    let body = decimal((m / 10) as nat) + seq!['.', digit_char((m % 10) as nat)];
    if tenths < 0 {
        seq!['-'] + body
    } else {
        body
    }
}

/// Relies on `<i64 as ToString>::to_string`: the decimal rendering of an integer.
#[verifier::external_body]
fn integer_text(n: i64) -> (r: String)
    ensures
        r@ == signed_decimal(n as int),
{
    n.to_string()
}

/// The decimal text of a temperature reading.
pub fn temperature_text(value: i32) -> (r: String)
    ensures
        r@ == signed_decimal(value as int),
{
    integer_text(value as i64)
}

/// Converts a Fahrenheit reading to ninths of a degree Celsius.
pub fn fahrenheit_to_celsius(fahrenheit: i32) -> (r: i64)
    ensures
        r == fahrenheit_ninths(fahrenheit as int),
{
    (fahrenheit as i64 - 32) * 5
}

/// Whether a unit tag is exactly `F`.
pub fn unit_is_fahrenheit(unit: &str) -> (r: bool)
    ensures
        r == is_fahrenheit(unit@),
{
    if unit.unicode_len() != 1 {
        false
    } else {
        unit.get_char(0) == 'F'
    }
}

/// A reading in the given unit, in ninths of a degree Celsius.
pub fn celsius(value: i32, unit: &str) -> (r: i64)
    ensures
        r == celsius_ninths(value as int, unit@),
{
    if unit_is_fahrenheit(unit) {
        fahrenheit_to_celsius(value)
    } else {
        value as i64 * 9
    }
}

/// The number of tenths of a degree nearest to `ninths / 9` degrees.
pub fn round_to_tenths(ninths: i64) -> (r: i128)
    ensures
        r == nearest_tenths(ninths as int),
        -9 < 20 * ninths - 18 * r < 9,
{
    let n = ninths as i128;
    if n >= 0 {
        let a = 20 * n + 9;
        let q = a / 18;
        proof {
            let m = a as int;
            assert(m == 18 * (m / 18) + m % 18) by (nonlinear_arith)
                requires m >= 0;
            assert(m % 2 == 1);
            assert(m % 18 != 0) by (nonlinear_arith)
                requires m % 2 == 1, m >= 0;
        }
        q
    } else {
        let a = 20 * (-n) + 9;
        let q = a / 18;
        proof {
            let m = a as int;
            assert(m == 18 * (m / 18) + m % 18) by (nonlinear_arith)
                requires m >= 0;
            assert(m % 2 == 1);
            assert(m % 18 != 0) by (nonlinear_arith)
                requires m % 2 == 1, m >= 0;
        }
        -q
    }
}

/// A reading of `ninths / 9` degrees as text with one decimal place.
pub fn one_decimal(ninths: i64) -> (r: String)
    ensures
        r@ == one_decimal_text(nearest_tenths(ninths as int)),
{
    let t = round_to_tenths(ninths);
    assert(-2 * 9223372036854775808 <= t <= 2 * 9223372036854775808) by (nonlinear_arith)
        requires -9 < 20 * ninths - 18 * t < 9, i64::MIN <= ninths <= i64::MAX;
    let m: i128 = if t < 0 { -t } else { t };
    let whole = (m / 10) as i64;
    let digit = (m % 10) as i64;
    let mut text = if t < 0 { String::from_str("-") } else { String::new() };
    let w = integer_text(whole);
    text.append(w.as_str());
    let d = integer_text(digit);
    assert(signed_decimal(digit as int) == seq![digit_char(digit as nat)]) by {
        reveal_with_fuel(decimal, 2);
    }
    text.append(".");
    text.append(d.as_str());
    proof {
        reveal_strlit("-");
        reveal_strlit(".");
        if t < 0 {
            assert(text@ =~= one_decimal_text(t as int));
        } else {
            assert(text@ =~= one_decimal_text(t as int));
        }
    }
    text
}

/// Converting a Celsius reading leaves it as it is.
pub proof fn lemma_celsius_passthrough(value: int, unit: Seq<char>)
    requires
        !is_fahrenheit(unit),
    ensures
        celsius_ninths(value, unit) == value * 9,
{
}

/// Freezing and boiling points of water: 32 °F is 0 °C, 212 °F is 100 °C.
pub proof fn lemma_fahrenheit_fixed_points()
    ensures
        fahrenheit_ninths(32) == 0,
        fahrenheit_ninths(212) == 100 * 9,
{
}

} // verus!
