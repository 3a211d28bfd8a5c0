//! The threshold, as the operator gives it: one decimal number on the command
//! line.

use crate::amount::{decimal, parsed_decimal, Amount, DecimalValue, ParseError};
use vstd::prelude::*;

verus! {

/// Why the program's argument gives no threshold.
#[derive(Clone, Copy, Debug, PartialEq, Eq)]
pub enum ArgumentError {
    /// No argument was given.
    Missing,
    /// The argument is not a decimal number that an amount can hold.
    Invalid(ParseError),
}

/// The threshold that `argument` gives, given what the decimal parser reads
/// out of each text.
pub open spec fn threshold_of(argument: Option<Seq<char>>) -> Result<DecimalValue, ArgumentError> {
    match argument {
        None => Err(ArgumentError::Missing),
        Some(text) => match parsed_decimal(text) {
            Some(parts) => Ok(decimal(parts.0, parts.1)),
            None => Err(ArgumentError::Invalid(ParseError::Malformed)),
        },
    }
}

/// The threshold that the first argument of the program gives.
pub fn threshold_from_argument(argument: Option<&str>) -> (threshold: Result<Amount, ArgumentError>)
    ensures
        match (
            threshold,
            threshold_of(
                match argument {
                    Some(text) => Some(text@),
                    None => None,
                },
            ),
        ) {
            (Ok(amount), Ok(value)) => amount@ == value,
            (Err(error), Err(expected)) => error == expected,
            _ => false,
        },
{
    match argument {
        None => Err(ArgumentError::Missing),
        Some(text) => match Amount::parse(text) {
            Ok(amount) => Ok(amount),
            Err(error) => Err(ArgumentError::Invalid(error)),
        },
    }
}

} // verus!
