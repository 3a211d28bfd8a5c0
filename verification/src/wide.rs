//! Decimal arithmetic on signed 128 bit mantissas, for the amounts that are
//! wider than ninety-six bits: exact order, normalisation and text, each held
//! against the same mathematical statement as its counterpart on narrower
//! amounts.

use crate::amount::{
    decimal, decimal_text, digit_char, digits, lemma_pow10_add, magnitude, padded_digits, pow10,
    MAX_SCALE,
};
use vstd::prelude::*;
use vstd::string::StringExecFns;

verus! {

/// Powers of ten are positive and grow with the exponent.
pub proof fn lemma_pow10_increasing(low: nat, high: nat)
    requires
        low <= high,
    ensures
        0 < pow10(low) <= pow10(high),
    decreases high,
{
    if high > 0 {
        if low == high {
            lemma_pow10_increasing((low - 1) as nat, (high - 1) as nat);
        } else {
            lemma_pow10_increasing(low, (high - 1) as nat);
        }
    }
}

/// Ten to the largest scale, written out.
pub proof fn lemma_pow10_of_max_scale()
    ensures
        pow10(MAX_SCALE as nat) == 10_000_000_000_000_000_000_000_000_000,
{
    reveal_with_fuel(pow10, 29);
}

/// `x * p < y` told from the quotient and the remainder of `y` by `p`.
pub proof fn lemma_product_below(x: int, p: int, y: int)
    requires
        0 <= x,
        0 <= y,
        0 < p,
    ensures
        (x * p < y) <==> (x < y / p || (x == y / p && y % p > 0)),
{
    vstd::arithmetic::div_mod::lemma_fundamental_div_mod(y, p);
    vstd::arithmetic::div_mod::lemma_mod_pos_bound(y, p);
    let q = y / p;
    let r = y % p;
    assert(y == p * q + r);
    if x < q {
        assert(x * p < y) by (nonlinear_arith)
            requires
                x < q,
                y == p * q + r,
                0 <= r,
                0 < p,
                0 <= x,
        ;
    } else if x == q {
        assert(x * p == p * q) by (nonlinear_arith)
            requires
                x == q,
        ;
    } else {
        assert(x * p >= y) by (nonlinear_arith)
            requires
                x > q,
                y == p * q + r,
                r < p,
                0 < p,
        ;
    }
}

/// `x < y * p` told from the quotient of `x` by `p`.
pub proof fn lemma_below_product(x: int, y: int, p: int)
    requires
        0 <= x,
        0 <= y,
        0 < p,
    ensures
        (x < y * p) <==> (x / p < y),
{
    vstd::arithmetic::div_mod::lemma_fundamental_div_mod(x, p);
    vstd::arithmetic::div_mod::lemma_mod_pos_bound(x, p);
    let q = x / p;
    let r = x % p;
    assert(x == p * q + r);
    if q < y {
        assert(x < y * p) by (nonlinear_arith)
            requires
                q < y,
                x == p * q + r,
                r < p,
                0 < p,
        ;
    } else {
        assert(x >= y * p) by (nonlinear_arith)
            requires
                q >= y,
                x == p * q + r,
                0 <= r,
                0 < p,
                0 <= y,
        ;
    }
}

/// A positive common factor does not change an order.
pub proof fn lemma_common_factor(a: int, b: int, c: int)
    requires
        0 < c,
    ensures
        (a * c < b * c) <==> (a < b),
{
    assert((a * c < b * c) <==> (a < b)) by (nonlinear_arith)
        requires
            0 < c,
    ;
}

/// Ten to the power `exp`.
pub(crate) fn pow10_u128(exp: u32) -> (power: u128)
    requires
        exp <= MAX_SCALE,
    ensures
        power == pow10(exp as nat),
        0 < power <= 10_000_000_000_000_000_000_000_000_000,
{
    let mut power: u128 = 1;
    let mut done: u32 = 0;
    while done < exp
        invariant
            done <= exp <= MAX_SCALE,
            power == pow10(done as nat),
        decreases exp - done,
    {
        proof {
            lemma_pow10_increasing((done + 1) as nat, MAX_SCALE as nat);
            lemma_pow10_of_max_scale();
        }
        power = power * 10;
        done = done + 1;
    }
    proof {
        lemma_pow10_increasing(exp as nat, MAX_SCALE as nat);
        lemma_pow10_of_max_scale();
    }
    power
}

/// The magnitude of `number`.
pub(crate) fn magnitude_of(number: i128) -> (size: u128)
    ensures
        size == magnitude(number as int),
{
    if number < 0 {
        let above: i128 = number + 1;
        let below: i128 = -above;
        below as u128 + 1
    } else {
        number as u128
    }
}

/// Exact `x / 10^x_scale < y / 10^y_scale` for two magnitudes. Only the
/// difference of the scales is applied, and by division, so nothing
/// overflows.
fn magnitude_lt(x: u128, x_scale: u32, y: u128, y_scale: u32) -> (less: bool)
    requires
        x_scale <= MAX_SCALE,
        y_scale <= MAX_SCALE,
    ensures
        less == (x * pow10(y_scale as nat) < y * pow10(x_scale as nat)),
{
    if y_scale >= x_scale {
        let factor = pow10_u128(y_scale - x_scale);
        let quotient = y / factor;
        let remainder = y % factor;
        proof {
            let common = pow10(x_scale as nat);
            lemma_pow10_increasing(0, x_scale as nat);
            lemma_pow10_add(x_scale as nat, (y_scale - x_scale) as nat);
            assert(pow10(y_scale as nat) == common * factor);
            lemma_product_below(x as int, factor as int, y as int);
            lemma_common_factor(x * factor, y as int, common);
            assert(x * pow10(y_scale as nat) == (x * factor) * common) by (nonlinear_arith)
                requires
                    pow10(y_scale as nat) == common * factor,
            ;
        }
        x < quotient || (x == quotient && remainder > 0)
    } else {
        let factor = pow10_u128(x_scale - y_scale);
        let quotient = x / factor;
        proof {
            let common = pow10(y_scale as nat);
            lemma_pow10_increasing(0, y_scale as nat);
            lemma_pow10_add(y_scale as nat, (x_scale - y_scale) as nat);
            assert(pow10(x_scale as nat) == common * factor);
            lemma_below_product(x as int, y as int, factor as int);
            lemma_common_factor(x as int, y * factor, common);
            assert(y * pow10(x_scale as nat) == (y * factor) * common) by (nonlinear_arith)
                requires
                    pow10(x_scale as nat) == common * factor,
            ;
        }
        quotient < y
    }
}

/// Exact numeric `left < right` for any two mantissas.
pub(crate) fn wide_lt(left_mantissa: i128, left_scale: u32, right_mantissa: i128, right_scale: u32) -> (less: bool)
    requires
        left_scale <= MAX_SCALE,
        right_scale <= MAX_SCALE,
    ensures
        less == decimal(left_mantissa as int, left_scale as nat).lt(
            decimal(right_mantissa as int, right_scale as nat),
        ),
{
    let ghost left_power = pow10(left_scale as nat);
    let ghost right_power = pow10(right_scale as nat);
    proof {
        lemma_pow10_increasing(0, left_scale as nat);
        lemma_pow10_increasing(0, right_scale as nat);
    }
    if left_mantissa < 0 {
        if right_mantissa < 0 {
            let left = magnitude_of(left_mantissa);
            let right = magnitude_of(right_mantissa);
            assert((left_mantissa * right_power < right_mantissa * left_power) <==> (right
                * left_power < left * right_power)) by (nonlinear_arith)
                requires
                    left == -left_mantissa,
                    right == -right_mantissa,
            ;
            magnitude_lt(right, right_scale, left, left_scale)
        } else {
            assert(left_mantissa * right_power < right_mantissa * left_power) by (nonlinear_arith)
                requires
                    left_mantissa < 0,
                    0 <= right_mantissa,
                    0 < left_power,
                    0 < right_power,
            ;
            true
        }
    } else {
        if right_mantissa < 0 {
            assert(!(left_mantissa * right_power < right_mantissa * left_power))
                by (nonlinear_arith)
                requires
                    0 <= left_mantissa,
                    right_mantissa < 0,
                    0 < left_power,
                    0 < right_power,
            ;
            false
        } else {
            magnitude_lt(
                magnitude_of(left_mantissa),
                left_scale,
                magnitude_of(right_mantissa),
                right_scale,
            )
        }
    }
}

/// Strips the trailing fractional zeros of any mantissa.
pub(crate) fn wide_normalize(mantissa: i128, scale: u32) -> (parts: (i128, u32))
    ensures
        decimal(parts.0 as int, parts.1 as nat) == decimal(mantissa as int, scale as nat).normalized(),
{
    let mut current = mantissa;
    let mut places = scale;
    loop
        invariant
            decimal(current as int, places as nat).normalized() == decimal(
                mantissa as int,
                scale as nat,
            ).normalized(),
        ensures
            decimal(current as int, places as nat).is_normal(),
        decreases places,
    {
        if places == 0 {
            break ;
        }
        let size = magnitude_of(current);
        if size % 10 != 0 {
            break ;
        }
        let tenth = size / 10;
        let ghost before = current;
        if current < 0 {
            current = -(tenth as i128);
        } else {
            current = tenth as i128;
        }
        assert(before % 10 == 0 && current == before / 10);
        places = places - 1;
    }
    (current, places)
}

/// The decimal digit `digit` as text.
fn digit_text(digit: u128) -> (text: &'static str)
    requires
        digit < 10,
    ensures
        text@ == seq![digit_char(digit as int)],
{
    proof {
        reveal_strlit("0");
        reveal_strlit("1");
        reveal_strlit("2");
        reveal_strlit("3");
        reveal_strlit("4");
        reveal_strlit("5");
        reveal_strlit("6");
        reveal_strlit("7");
        reveal_strlit("8");
        reveal_strlit("9");
    }
    if digit == 0 {
        "0"
    } else if digit == 1 {
        "1"
    } else if digit == 2 {
        "2"
    } else if digit == 3 {
        "3"
    } else if digit == 4 {
        "4"
    } else if digit == 5 {
        "5"
    } else if digit == 6 {
        "6"
    } else if digit == 7 {
        "7"
    } else if digit == 8 {
        "8"
    } else {
        "9"
    }
}

/// Writes the digits of `number` behind `text`.
fn push_digits(text: &mut String, number: u128)
    ensures
        final(text)@ == old(text)@ + digits(number as nat),
    decreases number,
{
    if number >= 10 {
        push_digits(text, number / 10);
    }
    text.append(digit_text(number % 10));
}

/// Writes the last `width` digits of `number` behind `text`.
fn push_padded_digits(text: &mut String, number: u128, width: u32)
    ensures
        final(text)@ == old(text)@ + padded_digits(number as nat, width as nat),
    decreases width,
{
    if width > 0 {
        push_padded_digits(text, number / 10, width - 1);
        text.append(digit_text(number % 10));
    }
}

/// The text of any mantissa at `scale`.
pub(crate) fn wide_text(mantissa: i128, scale: u32) -> (text: String)
    requires
        scale <= MAX_SCALE,
    ensures
        text@ == decimal_text(mantissa as int, scale as nat),
{
    let size = magnitude_of(mantissa);
    let power = pow10_u128(scale);
    let mut text = String::new();
    if mantissa < 0 {
        proof {
            reveal_strlit("-");
        }
        text.append("-");
    }
    push_digits(&mut text, size / power);
    if scale > 0 {
        proof {
            reveal_strlit(".");
        }
        text.append(".");
        push_padded_digits(&mut text, size % power, scale);
    }
    text
}

} // verus!
