//! What the oracle keeps: its configuration and the records it stores.

use vstd::prelude::*;

use crate::decimal::Decimal;
use crate::ledger::RateLedger;

verus! {

/// The largest number of records that is kept for one denom.
pub const MAX_NUM_HISTORICAL_RATES: usize = 100;

/// The configuration, fixed when the oracle is set up.
#[derive(Debug, PartialEq, Eq)]
pub struct Config {
    /// The only address that may post rates.
    pub admin_address: String,
}

/// One record: the two rates of a denom and the time at which they were posted.
#[derive(Clone, Copy, Debug, PartialEq, Eq, Structural)]
pub struct Rates {
    pub purchase_rate: Decimal,
    pub redemption_rate: Decimal,
    /// Unix timestamp, in seconds.
    pub update_time: u64,
}

/// Which contract a state belongs to, and at which version it was written.
#[derive(Debug, PartialEq, Eq)]
pub struct ContractVersion {
    /// The name of the contract.
    pub contract: String,
    /// The version of the contract, a semantic version.
    pub version: String,
}

/// Everything the oracle keeps between two requests. Every operation takes the
/// state it works on as an argument; there is no other state.
#[derive(Debug)]
pub struct OracleState {
    pub contract: ContractVersion,
    pub config: Config,
    pub rates: RateLedger,
}

impl OracleState {
    /// The invariant of a state: its ledger is valid.
    pub open spec fn wf(&self) -> bool {
        self.rates.wf()
    }
}

impl Clone for Config {
    fn clone(&self) -> (r: Config)
        ensures
            r == *self,
    {
        Config { admin_address: self.admin_address.clone() }
    }
}

} // verus!
