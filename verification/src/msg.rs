//! The requests that the oracle takes and the answers that it gives.

use vstd::prelude::*;

use crate::decimal::Decimal;
use crate::state::Config;

verus! {

/// Sets the oracle up.
#[derive(Clone, Debug, PartialEq, Eq)]
pub struct InstantiateMsg {
    /// The address that may post rates from now on.
    pub admin_address: String,
}

/// The writes.
#[derive(Clone, Debug, PartialEq, Eq)]
pub enum ExecuteMsg {
    /// Posts the two rates of a denom. Both are exact decimals, written as text.
    PostRates { denom: String, purchase_rate: String, redemption_rate: String },
}

/// The reads. `params` is a reserved slot: it must be absent or hold no byte.
#[derive(Clone, Debug, PartialEq, Eq)]
pub enum QueryMsg {
    Config {  },
    RedemptionRate { denom: String, params: Option<Vec<u8>> },
    HistoricalRedemptionRates { denom: String, params: Option<Vec<u8>>, limit: Option<u64> },
    PurchaseRate { denom: String, params: Option<Vec<u8>> },
    HistoricalPurchaseRates { denom: String, params: Option<Vec<u8>>, limit: Option<u64> },
}

/// Asks for an upgrade to the version of this crate.
#[derive(Clone, Copy, Debug, PartialEq, Eq, Structural)]
pub struct MigrateMsg {}

/// The latest redemption rate of a denom.
#[derive(Clone, Copy, Debug, PartialEq, Eq, Structural)]
pub struct RedemptionRateResponse {
    pub redemption_rate: Decimal,
    pub update_time: u64,
}

/// The latest purchase rate of a denom.
#[derive(Clone, Copy, Debug, PartialEq, Eq, Structural)]
pub struct PurchaseRateResponse {
    pub purchase_rate: Decimal,
    pub update_time: u64,
}

/// The stored redemption rates of a denom, the latest one first.
#[derive(Clone, Debug, PartialEq, Eq)]
pub struct HistoricalRedemptionRatesResponse {
    pub redemption_rates: Vec<RedemptionRate>,
}

/// The stored purchase rates of a denom, the latest one first.
#[derive(Clone, Debug, PartialEq, Eq)]
pub struct HistoricalPurchaseRatesResponse {
    pub purchase_rates: Vec<PurchaseRate>,
}

/// One redemption rate of a history.
#[derive(Clone, Debug, PartialEq, Eq)]
pub struct RedemptionRate {
    pub denom: String,
    pub redemption_rate: Decimal,
    pub update_time: u64,
}

/// One purchase rate of a history.
#[derive(Clone, Debug, PartialEq, Eq)]
pub struct PurchaseRate {
    pub denom: String,
    pub purchase_rate: Decimal,
    pub update_time: u64,
}

/// The answer to a query, by the kind of the query.
#[derive(Clone, Debug, PartialEq, Eq)]
pub enum QueryResponse {
    Config(Config),
    RedemptionRate(RedemptionRateResponse),
    HistoricalRedemptionRates(HistoricalRedemptionRatesResponse),
    PurchaseRate(PurchaseRateResponse),
    HistoricalPurchaseRates(HistoricalPurchaseRatesResponse),
}

/// The acknowledgement of a set-up.
#[derive(Clone, Debug, PartialEq, Eq)]
pub struct InstantiateResponse {
    /// Always `"instantiate"`.
    pub action: String,
    pub admin_address: String,
}

/// The acknowledgement of a write.
#[derive(Clone, Debug, PartialEq, Eq)]
pub struct PostRatesResponse {
    /// Always `"post_rates"`.
    pub action: String,
    pub denom: String,
    /// The purchase rate as it was stored, printed as a decimal.
    pub purchase_rate: String,
    /// The redemption rate as it was stored, printed as a decimal.
    pub redemption_rate: String,
    /// The time under which the record was stored.
    pub update_time: u64,
    /// The sequence of the record that left the history of the denom to make
    /// room, if one did.
    pub evicted: Option<u64>,
}

} // verus!
