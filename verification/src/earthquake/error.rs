//! Why the insurance hook refuses.

use vstd::prelude::*;

verus! {

/// The reasons for which the insurance hook refuses an instruction.
#[derive(Clone, Copy, Debug, PartialEq, Eq, Structural)]
pub enum EarthquakeInsuranceError {
    /// The feed presented is not the one registered for the region.
    InvalidFeed,
    /// The feed gives no usable result, or a magnitude is out of range.
    InvalidOracleData,
    /// The magnitude reported stays below the threshold.
    MagnitudeBelowThreshold,
    /// The caller does not own the policy.
    UserLocationNotRegistered,
    /// The policy names a region that does not exist.
    RegionNotSupported,
    /// The instruction buffer or the account list is malformed.
    InvalidInstruction,
    /// The caller may not do this, or the claim is not covered.
    UnauthorizedClaim,
    /// The policy record is malformed or already exists.
    InvalidUserData,
    /// The policy was claimed before.
    ClaimAlreadyProcessed,
    /// The policy's window has closed.
    PolicyExpired,
    /// The policy's window has not opened yet.
    PolicyNotActive,
    /// The claim exceeds the insured amount.
    ExcessClaimAmount,
    /// The premium paid does not cover the policy.
    InsufficientPremium,
}

impl EarthquakeInsuranceError {
    /// The number under which the ledger reports the reason.
    pub open spec fn spec_code(&self) -> u32 {
        match self {
            EarthquakeInsuranceError::InvalidFeed => 0,
            EarthquakeInsuranceError::InvalidOracleData => 1,
            EarthquakeInsuranceError::MagnitudeBelowThreshold => 2,
            EarthquakeInsuranceError::UserLocationNotRegistered => 3,
            EarthquakeInsuranceError::RegionNotSupported => 4,
            EarthquakeInsuranceError::InvalidInstruction => 5,
            EarthquakeInsuranceError::UnauthorizedClaim => 6,
            EarthquakeInsuranceError::InvalidUserData => 7,
            EarthquakeInsuranceError::ClaimAlreadyProcessed => 8,
            EarthquakeInsuranceError::PolicyExpired => 9,
            EarthquakeInsuranceError::PolicyNotActive => 10,
            EarthquakeInsuranceError::ExcessClaimAmount => 11,
            EarthquakeInsuranceError::InsufficientPremium => 12,
        }
    }

    /// The number under which the ledger reports the reason.
    #[verifier::when_used_as_spec(spec_code)]
    pub fn code(&self) -> (code: u32)
        ensures
            code == self.spec_code(),
    {
        match self {
            EarthquakeInsuranceError::InvalidFeed => 0,
            EarthquakeInsuranceError::InvalidOracleData => 1,
            EarthquakeInsuranceError::MagnitudeBelowThreshold => 2,
            EarthquakeInsuranceError::UserLocationNotRegistered => 3,
            EarthquakeInsuranceError::RegionNotSupported => 4,
            EarthquakeInsuranceError::InvalidInstruction => 5,
            EarthquakeInsuranceError::UnauthorizedClaim => 6,
            EarthquakeInsuranceError::InvalidUserData => 7,
            EarthquakeInsuranceError::ClaimAlreadyProcessed => 8,
            EarthquakeInsuranceError::PolicyExpired => 9,
            EarthquakeInsuranceError::PolicyNotActive => 10,
            EarthquakeInsuranceError::ExcessClaimAmount => 11,
            EarthquakeInsuranceError::InsufficientPremium => 12,
        }
    }

    /// The sentence that describes the reason.
    pub open spec fn spec_message(self) -> Seq<char> {
        match self {
            EarthquakeInsuranceError::InvalidFeed => "Invalid Switchboard feed"@,
            EarthquakeInsuranceError::InvalidOracleData => "Invalid Switchboard data"@,
            EarthquakeInsuranceError::MagnitudeBelowThreshold => "Earthquake magnitude is below threshold"@,
            EarthquakeInsuranceError::UserLocationNotRegistered => "User location not registered"@,
            EarthquakeInsuranceError::RegionNotSupported => "Region not supported"@,
            EarthquakeInsuranceError::InvalidInstruction => "Invalid instruction"@,
            EarthquakeInsuranceError::UnauthorizedClaim => "Destination not authorized for claim"@,
            EarthquakeInsuranceError::InvalidUserData => "Invalid user account data"@,
            EarthquakeInsuranceError::ClaimAlreadyProcessed => "Insurance claim already processed"@,
            EarthquakeInsuranceError::PolicyExpired => "Insurance policy expired"@,
            EarthquakeInsuranceError::PolicyNotActive => "Insurance policy not active yet"@,
            EarthquakeInsuranceError::ExcessClaimAmount => "Claim amount exceeds insured amount"@,
            EarthquakeInsuranceError::InsufficientPremium => "Premium payment insufficient"@,
        }
    }

    /// The sentence that describes the reason.
    pub fn message(&self) -> (text: &'static str)
        ensures
            text@ == self.spec_message(),
    {
        match self {
            EarthquakeInsuranceError::InvalidFeed => "Invalid Switchboard feed",
            EarthquakeInsuranceError::InvalidOracleData => "Invalid Switchboard data",
            EarthquakeInsuranceError::MagnitudeBelowThreshold => "Earthquake magnitude is below threshold",
            EarthquakeInsuranceError::UserLocationNotRegistered => "User location not registered",
            EarthquakeInsuranceError::RegionNotSupported => "Region not supported",
            EarthquakeInsuranceError::InvalidInstruction => "Invalid instruction",
            EarthquakeInsuranceError::UnauthorizedClaim => "Destination not authorized for claim",
            EarthquakeInsuranceError::InvalidUserData => "Invalid user account data",
            EarthquakeInsuranceError::ClaimAlreadyProcessed => "Insurance claim already processed",
            EarthquakeInsuranceError::PolicyExpired => "Insurance policy expired",
            EarthquakeInsuranceError::PolicyNotActive => "Insurance policy not active yet",
            EarthquakeInsuranceError::ExcessClaimAmount => "Claim amount exceeds insured amount",
            EarthquakeInsuranceError::InsufficientPremium => "Premium payment insufficient",
        }
    }

    /// The name under which the ledger files these reasons.
    pub fn type_of() -> (name: &'static str)
        ensures
            name@ == "EarthquakeInsuranceError"@,
    {
        "EarthquakeInsuranceError"
    }

    /// The reason as the typed entry point reports it: a claim outside the
    /// window or over the insured amount counts as unauthorized there.
    pub open spec fn spec_combined(&self) -> EarthquakeInsuranceError {
        match self {
            EarthquakeInsuranceError::PolicyExpired => EarthquakeInsuranceError::UnauthorizedClaim,
            EarthquakeInsuranceError::PolicyNotActive => EarthquakeInsuranceError::UnauthorizedClaim,
            EarthquakeInsuranceError::ExcessClaimAmount => EarthquakeInsuranceError::UnauthorizedClaim,
            other => *other,
        }
    }

    /// The reason as the typed entry point reports it.
    #[verifier::when_used_as_spec(spec_combined)]
    pub fn combined(&self) -> (reason: EarthquakeInsuranceError)
        ensures
            reason == self.spec_combined(),
    {
        match self {
            EarthquakeInsuranceError::PolicyExpired => EarthquakeInsuranceError::UnauthorizedClaim,
            EarthquakeInsuranceError::PolicyNotActive => EarthquakeInsuranceError::UnauthorizedClaim,
            EarthquakeInsuranceError::ExcessClaimAmount => EarthquakeInsuranceError::UnauthorizedClaim,
            other => *other,
        }
    }
}

} // verus!
