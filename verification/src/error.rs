//! The errors that the oracle reports.

use vstd::prelude::*;

verus! {

/// Which of the two rates of a record a request is about.
#[derive(Clone, Copy, Debug, PartialEq, Eq, Structural)]
pub enum RateKind {
    Purchase,
    Redemption,
}

/// Every way in which a request can fail. A failed request leaves the state
/// exactly as it found it.
#[derive(Clone, Copy, Debug, PartialEq, Eq, Structural)]
pub enum ContractError {
    /// A write came from somebody who is not the admin.
    Unauthorized,
    /// A single-rate query found no record for the denom.
    NotFound { rate: RateKind },
    /// A query carried a non-empty extension parameter.
    InvalidRequest,
    /// A rate string is not an exact decimal.
    MalformedRate { rate: RateKind },
    /// An upgrade was asked for a state that belongs to another contract, or
    /// to a version that is not strictly newer than the stored one.
    InvalidVersionTransition,
}

impl ContractError {
    /// The message of an error.
    pub open spec fn text(self) -> Seq<char> {
        match self {
            ContractError::Unauthorized => "Unauthorized"@,
            ContractError::NotFound { rate: RateKind::Purchase } =>
                "Generic error: purchase rate not found"@,
            ContractError::NotFound { rate: RateKind::Redemption } =>
                "Generic error: redemption rate not found"@,
            ContractError::InvalidRequest =>
                "Generic error: invalid query request - params must be None"@,
            ContractError::MalformedRate { rate: RateKind::Purchase } =>
                "Generic error: malformed purchase rate"@,
            ContractError::MalformedRate { rate: RateKind::Redemption } =>
                "Generic error: malformed redemption rate"@,
            ContractError::InvalidVersionTransition => "Invalid contract version"@,
        }
    }

    /// The message of an error, as a string.
    pub fn to_string(&self) -> (r: String)
        ensures
            r@ == self.text(),
    {
        match self {
            ContractError::Unauthorized => "Unauthorized".to_owned(),
            ContractError::NotFound { rate: RateKind::Purchase } =>
                "Generic error: purchase rate not found".to_owned(),
            ContractError::NotFound { rate: RateKind::Redemption } =>
                "Generic error: redemption rate not found".to_owned(),
            ContractError::InvalidRequest =>
                "Generic error: invalid query request - params must be None".to_owned(),
            ContractError::MalformedRate { rate: RateKind::Purchase } =>
                "Generic error: malformed purchase rate".to_owned(),
            ContractError::MalformedRate { rate: RateKind::Redemption } =>
                "Generic error: malformed redemption rate".to_owned(),
            ContractError::InvalidVersionTransition => "Invalid contract version".to_owned(),
        }
    }
}

} // verus!
