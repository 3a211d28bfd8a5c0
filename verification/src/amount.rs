//! Exact decimal quantities.
//!
//! An [`Amount`] is an integer mantissa together with a count of decimal
//! places. Wherever `rust_decimal` can hold both operands, ordering,
//! normalisation and rendering are done by it, and parsing always is; beyond
//! its ninety-six bits the library's own integer arithmetic does the same
//! work. This module states what those operations mean over the mathematical
//! value [`DecimalValue`].

use crate::wide::{wide_lt, wide_normalize, wide_text};
use rust_decimal::Decimal;
use std::str::FromStr;
use vstd::prelude::*;

verus! {

/// The largest number of decimal places an amount can carry.
pub const MAX_SCALE: u32 = 28;

/// The largest magnitude of a mantissa that `rust_decimal` holds: ninety-six
/// bits, all set.
pub const MAX_MANTISSA: i128 = 0xFFFF_FFFF_FFFF_FFFF_FFFF_FFFF;

/// Ten to the power `exp`.
pub open spec fn pow10(exp: nat) -> int
    decreases exp,
{
    if exp == 0 {
        1
    } else {
        10 * pow10((exp - 1) as nat)
    }
}

/// The mathematical decimal number `mantissa / 10^scale`.
pub struct DecimalValue {
    pub mantissa: int,
    pub scale: nat,
}

/// The decimal number `mantissa / 10^scale`.
pub open spec fn decimal(mantissa: int, scale: nat) -> DecimalValue {
    DecimalValue { mantissa, scale }
}

impl DecimalValue {
    /// Whether `rust_decimal` can hold the number: the mantissa fits
    /// ninety-six bits and a sign, and the scale is within the limit.
    pub open spec fn representable(self) -> bool {
        &&& -MAX_MANTISSA <= self.mantissa <= MAX_MANTISSA
        &&& self.scale <= MAX_SCALE
    }

    /// Whether an [`Amount`] can hold the number: the mantissa is a signed
    /// 128 bit integer, and the scale is within the limit.
    pub open spec fn holdable(self) -> bool {
        &&& i128::MIN <= self.mantissa <= i128::MAX
        &&& self.scale <= MAX_SCALE
    }

    /// Exact numeric `self < other`: both sides are brought to a common
    /// denominator, so no digit is lost.
    pub open spec fn lt(self, other: DecimalValue) -> bool {
        self.mantissa * pow10(other.scale) < other.mantissa * pow10(self.scale)
    }

    /// Exact numeric `self >= other`.
    pub open spec fn ge(self, other: DecimalValue) -> bool {
        !self.lt(other)
    }

    /// Whether the two denote the same number.
    pub open spec fn same_number(self, other: DecimalValue) -> bool {
        self.mantissa * pow10(other.scale) == other.mantissa * pow10(self.scale)
    }

    /// Whether no trailing fractional zero is left.
    pub open spec fn is_normal(self) -> bool {
        self.scale == 0 || self.mantissa % 10 != 0
    }

    /// The same number with every trailing fractional zero stripped. Zero
    /// becomes the integer zero.
    pub open spec fn normalized(self) -> DecimalValue
        decreases self.scale,
    {
        if self.scale > 0 && self.mantissa % 10 == 0 {
            decimal(self.mantissa / 10, (self.scale - 1) as nat).normalized()
        } else {
            self
        }
    }
}

/// Normalising strips zeros only: the result is normal, has no more decimal
/// places than before, and denotes the same number.
pub proof fn lemma_normalized_properties(value: DecimalValue)
    ensures
        value.normalized().is_normal(),
        value.normalized().scale <= value.scale,
        value.normalized().mantissa * pow10((value.scale - value.normalized().scale) as nat)
            == value.mantissa,
        value.normalized().same_number(value),
    decreases value.scale,
{
    let n = value.normalized();
    if value.scale > 0 && value.mantissa % 10 == 0 {
        let inner = decimal(value.mantissa / 10, (value.scale - 1) as nat);
        lemma_normalized_properties(inner);
        let k = (inner.scale - n.scale) as nat;
        assert(pow10(k + 1) == 10 * pow10(k));
        assert(n.mantissa * pow10(k + 1) == value.mantissa) by (nonlinear_arith)
            requires
                n.mantissa * pow10(k) == value.mantissa / 10,
                pow10(k + 1) == 10 * pow10(k),
                value.mantissa % 10 == 0,
        ;
    } else {
        assert(pow10(0) == 1);
    }
    let d = (value.scale - n.scale) as nat;
    lemma_pow10_add(n.scale, d);
    assert(n.mantissa * pow10(value.scale) == value.mantissa * pow10(n.scale)) by (nonlinear_arith)
        requires
            n.mantissa * pow10(d) == value.mantissa,
            pow10(value.scale) == pow10(n.scale) * pow10(d),
    ;
}

/// Normalising keeps a number inside the range of `rust_decimal`, and inside
/// the range of an amount.
pub proof fn lemma_normalized_in_range(value: DecimalValue)
    ensures
        value.representable() ==> value.normalized().representable(),
        value.holdable() ==> value.normalized().holdable(),
    decreases value.scale,
{
    if value.scale > 0 && value.mantissa % 10 == 0 {
        lemma_normalized_in_range(decimal(value.mantissa / 10, (value.scale - 1) as nat));
    }
}

/// Normalising twice is normalising once.
pub proof fn lemma_normalized_idempotent(value: DecimalValue)
    ensures
        value.normalized().normalized() == value.normalized(),
    decreases value.scale,
{
    if value.scale > 0 && value.mantissa % 10 == 0 {
        lemma_normalized_idempotent(decimal(value.mantissa / 10, (value.scale - 1) as nat));
    }
}

/// `10^(a + b) = 10^a * 10^b`.
pub proof fn lemma_pow10_add(a: nat, b: nat)
    ensures
        pow10(a + b) == pow10(a) * pow10(b),
    decreases b,
{
    if b == 0 {
        assert(pow10(a) * 1 == pow10(a));
    } else {
        lemma_pow10_add(a, (b - 1) as nat);
        assert(pow10(a + b) == 10 * pow10((a + b - 1) as nat));
        assert(10 * (pow10(a) * pow10((b - 1) as nat)) == pow10(a) * (10 * pow10((b - 1) as nat)))
            by (nonlinear_arith);
    }
}

/// The character of the decimal digit `digit`.
pub open spec fn digit_char(digit: int) -> char {
    seq!['0', '1', '2', '3', '4', '5', '6', '7', '8', '9'][digit]
}

/// The decimal digits of `number`, the most significant first, without
/// leading zeros; zero is the one digit `0`.
pub open spec fn digits(number: nat) -> Seq<char>
    decreases number,
{
    if number < 10 {
        seq![digit_char(number as int)]
    } else {
        digits(number / 10).push(digit_char((number % 10) as int))
    }
}

/// The last `width` decimal digits of `number`, with leading zeros.
pub open spec fn padded_digits(number: nat, width: nat) -> Seq<char>
    decreases width,
{
    if width == 0 {
        Seq::empty()
    } else {
        padded_digits(number / 10, (width - 1) as nat).push(digit_char((number % 10) as int))
    }
}

/// The magnitude of `number`.
pub open spec fn magnitude(number: int) -> nat {
    if number < 0 {
        (-number) as nat
    } else {
        number as nat
    }
}

/// The number `mantissa / 10^scale` as text: a minus sign if it is negative,
/// the digits of its whole part, and, where it has decimal places, a point
/// and every one of them.
pub open spec fn decimal_text(mantissa: int, scale: nat) -> Seq<char> {
    let sign = if mantissa < 0 {
        seq!['-']
    } else {
        Seq::empty()
    };
    let whole = digits((magnitude(mantissa) / (pow10(scale) as nat)) as nat);
    if scale == 0 {
        sign + whole
    } else {
        sign + whole + seq!['.'] + padded_digits(
            (magnitude(mantissa) % (pow10(scale) as nat)) as nat,
            scale,
        )
    }
}

/// What `rust_decimal` reads out of `text`: the mantissa and the scale of the
/// number, or `None` where it rejects the text.
pub uninterp spec fn parsed_decimal(text: Seq<char>) -> Option<(int, nat)>;

/// The error type of `rust_decimal`.
#[verifier::external_type_specification]
#[verifier::external_body]
pub struct ExDecimalError(rust_decimal::Error);

/// Calls `Decimal`'s `<`, which `rust_decimal` implements through `Ord::cmp`.
/// Both numbers are built with `Decimal::from_i128_with_scale`, which accepts
/// every representable pair. The comparison rescales the operand with fewer
/// decimal places in ninety-six bit arithmetic and treats an overflow there as
/// "larger", so the answer is the exact numeric order.
#[verifier::external_body]
fn decimal_lt(left_mantissa: i128, left_scale: u32, right_mantissa: i128, right_scale: u32) -> (less: bool)
    requires
        decimal(left_mantissa as int, left_scale as nat).representable(),
        decimal(right_mantissa as int, right_scale as nat).representable(),
    ensures
        less == decimal(left_mantissa as int, left_scale as nat).lt(
            decimal(right_mantissa as int, right_scale as nat),
        ),
{
    Decimal::from_i128_with_scale(left_mantissa, left_scale)
        < Decimal::from_i128_with_scale(right_mantissa, right_scale)
}

/// Calls `Decimal::normalize`, which divides the mantissa by ten for as long
/// as it leaves no remainder and decimal places are left, and turns zero into
/// the integer zero.
#[verifier::external_body]
fn decimal_normalize(mantissa: i128, scale: u32) -> (parts: (i128, u32))
    requires
        decimal(mantissa as int, scale as nat).representable(),
    ensures
        decimal(parts.0 as int, parts.1 as nat) == decimal(mantissa as int, scale as nat).normalized(),
{
    let normal = Decimal::from_i128_with_scale(mantissa, scale).normalize();
    (normal.mantissa(), normal.scale())
}

/// Calls `Decimal`'s `Display` through `to_string`. It writes a minus sign
/// for a negative number, then the digits of the mantissa with zeros put in
/// front until there are as many as decimal places, a point before the last
/// `scale` of them, and a `0` before the point where nothing else stands
/// there.
#[verifier::external_body]
fn decimal_display(mantissa: i128, scale: u32) -> (text: String)
    requires
        decimal(mantissa as int, scale as nat).representable(),
    ensures
        text@ == decimal_text(mantissa as int, scale as nat),
{
    Decimal::from_i128_with_scale(mantissa, scale).to_string()
}

/// Calls `Decimal::from_str` and hands out the mantissa and the scale of what
/// it read. Whether and what it reads depends on the text alone. A `Decimal`
/// keeps its mantissa in ninety-six bits, and the parser gives no more than
/// twenty-eight decimal places.
#[verifier::external_body]
fn decimal_from_str(text: &str) -> (parsed: Result<(i128, u32), rust_decimal::Error>)
    ensures
        match parsed {
            Ok(parts) => {
                &&& parsed_decimal(text@) == Some((parts.0 as int, parts.1 as nat))
                &&& decimal(parts.0 as int, parts.1 as nat).representable()
            },
            Err(_) => parsed_decimal(text@) is None,
        },
{
    match Decimal::from_str(text) {
        Ok(number) => Ok((number.mantissa(), number.scale())),
        Err(error) => Err(error),
    }
}

/// Why a piece of text or a pair of numbers is not an amount.
#[derive(Clone, Copy, Debug, PartialEq, Eq)]
pub enum ParseError {
    /// The text is not a decimal number.
    Malformed,
    /// The number has more decimal places than an amount can carry.
    OutOfRange,
}

/// What [`Amount::from_parsed`] makes of a mantissa and a scale, or of their
/// absence.
pub open spec fn parse_result(parsed: Option<(int, nat)>) -> Result<DecimalValue, ParseError> {
    match parsed {
        None => Err(ParseError::Malformed),
        Some(parts) => if decimal(parts.0, parts.1).holdable() {
            Ok(decimal(parts.0, parts.1))
        } else {
            Err(ParseError::OutOfRange)
        },
    }
}

/// An exact decimal number: a signed 128 bit mantissa with at most
/// twenty-eight decimal places.
#[derive(Clone, Copy, Debug, PartialEq, Eq)]
pub struct Amount {
    mantissa: i128,
    scale: u32,
}

impl View for Amount {
    type V = DecimalValue;

    closed spec fn view(&self) -> DecimalValue {
        decimal(self.mantissa as int, self.scale as nat)
    }
}

impl Amount {
    #[verifier::type_invariant]
    spec fn in_range(self) -> bool {
        self@.holdable()
    }

    /// The amount `mantissa / 10^scale`, or `None` where the scale is beyond
    /// the limit.
    pub fn new(mantissa: i128, scale: u32) -> (amount: Option<Amount>)
        ensures
            amount is Some <==> scale <= MAX_SCALE,
            amount matches Some(a) ==> a@ == decimal(mantissa as int, scale as nat),
    {
        if scale <= MAX_SCALE {
            Some(Amount { mantissa, scale })
        } else {
            None
        }
    }

    /// The amount `mantissa / 10^scale`.
    pub fn from_parts(mantissa: i128, scale: u32) -> (amount: Amount)
        requires
            scale <= MAX_SCALE,
        ensures
            amount@ == decimal(mantissa as int, scale as nat),
    {
        Amount { mantissa, scale }
    }

    /// The amount that a parsed mantissa and scale denote.
    pub fn from_parsed(parsed: Option<(i128, u32)>) -> (amount: Result<Amount, ParseError>)
        ensures
            match (amount, parse_result(
                match parsed {
                    Some(parts) => Some((parts.0 as int, parts.1 as nat)),
                    None => None,
                },
            )) {
                (Ok(a), Ok(value)) => a@ == value,
                (Err(e), Err(expected)) => e == expected,
                _ => false,
            },
    {
        match parsed {
            None => Err(ParseError::Malformed),
            Some(parts) => match Amount::new(parts.0, parts.1) {
                Some(amount) => Ok(amount),
                None => Err(ParseError::OutOfRange),
            },
        }
    }

    /// Reads a decimal number. What is read is what the decimal parser reads
    /// out of the text, and is always within the range of `rust_decimal`.
    pub fn parse(text: &str) -> (amount: Result<Amount, ParseError>)
        ensures
            match amount {
                Ok(a) => {
                    &&& parsed_decimal(text@) == Some((a@.mantissa, a@.scale))
                    &&& a@.representable()
                },
                Err(error) => error == ParseError::Malformed && parsed_decimal(text@) is None,
            },
    {
        match decimal_from_str(text) {
            Ok(parts) => Amount::from_parsed(Some(parts)),
            Err(_) => Amount::from_parsed(None),
        }
    }

    /// The mantissa.
    pub fn mantissa(&self) -> (mantissa: i128)
        ensures
            mantissa == self@.mantissa,
    {
        self.mantissa
    }

    /// The number of decimal places.
    pub fn scale(&self) -> (scale: u32)
        ensures
            scale == self@.scale,
    {
        self.scale
    }

    /// Whether `rust_decimal` can hold the amount.
    pub fn is_representable(&self) -> (representable: bool)
        ensures
            representable == self@.representable(),
    {
        proof {
            use_type_invariant(self);
        }
        -MAX_MANTISSA <= self.mantissa && self.mantissa <= MAX_MANTISSA
    }

    /// Exact numeric `self < other`.
    pub fn is_less_than(&self, other: &Amount) -> (less: bool)
        ensures
            less == self@.lt(other@),
    {
        proof {
            use_type_invariant(self);
            use_type_invariant(other);
        }
        if self.is_representable() && other.is_representable() {
            decimal_lt(self.mantissa, self.scale, other.mantissa, other.scale)
        } else {
            wide_lt(self.mantissa, self.scale, other.mantissa, other.scale)
        }
    }

    /// The same number without trailing fractional zeros.
    pub fn normalize(&self) -> (normal: Amount)
        ensures
            normal@ == self@.normalized(),
            normal@.is_normal(),
            normal@.same_number(self@),
    {
        proof {
            use_type_invariant(self);
            lemma_normalized_in_range(self@);
            lemma_normalized_properties(self@);
        }
        let parts = if self.is_representable() {
            decimal_normalize(self.mantissa, self.scale)
        } else {
            wide_normalize(self.mantissa, self.scale)
        };
        Amount { mantissa: parts.0, scale: parts.1 }
    }

    /// The amount as decimal text.
    pub fn to_text(&self) -> (text: String)
        ensures
            text@ == decimal_text(self@.mantissa, self@.scale),
    {
        proof {
            use_type_invariant(self);
        }
        if self.is_representable() {
            decimal_display(self.mantissa, self.scale)
        } else {
            wide_text(self.mantissa, self.scale)
        }
    }
}

} // verus!
