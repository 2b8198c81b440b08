//! Why the payment hook refuses.

use vstd::prelude::*;

verus! {

/// The reasons for which the payment hook refuses an instruction.
#[derive(Clone, Copy, Debug, PartialEq, Eq, Structural)]
pub enum PriceValidationError {
    /// The amount lies outside the tolerance band.
    PriceOutOfRange,
    /// The instruction buffer or the account list is malformed.
    InvalidInstruction,
    /// A feed gives no result, or none that is a price.
    SwitchboardError,
    /// Validation is switched off.
    PriceValidationNotActive,
    /// A feed presented is not a configured one.
    InvalidOracleFeed,
    /// The price of the token is zero.
    InvalidOracleData,
}

impl PriceValidationError {
    /// The sentence that describes the reason.
    pub open spec fn spec_message(&self) -> Seq<char> {
        match self {
            PriceValidationError::PriceOutOfRange => "Payment price is outside of the allowed range"@,
            PriceValidationError::InvalidInstruction => "Invalid instruction"@,
            PriceValidationError::SwitchboardError => "Failed to get price from Switchboard feed"@,
            PriceValidationError::PriceValidationNotActive => "Price validation is not active"@,
            PriceValidationError::InvalidOracleFeed => "Invalid oracle feed"@,
            PriceValidationError::InvalidOracleData => "Invalid oracle data"@,
        }
    }

    /// The sentence that describes the reason.
    pub fn message(&self) -> (text: &'static str)
        ensures
            text@ == self.spec_message(),
    {
        match self {
            PriceValidationError::PriceOutOfRange => "Payment price is outside of the allowed range",
            PriceValidationError::InvalidInstruction => "Invalid instruction",
            PriceValidationError::SwitchboardError => "Failed to get price from Switchboard feed",
            PriceValidationError::PriceValidationNotActive => "Price validation is not active",
            PriceValidationError::InvalidOracleFeed => "Invalid oracle feed",
            PriceValidationError::InvalidOracleData => "Invalid oracle data",
        }
    }

    /// The name under which the ledger files these reasons.
    pub fn type_of() -> (name: &'static str)
        ensures
            name@ == "PriceValidationError"@,
    {
        "PriceValidationError"
    }
}

} // verus!
