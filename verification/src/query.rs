//! The reads: the latest rate of a denom, and its stored rates.
//!
//! Every read checks the extension slot first. A read of the latest rate fails
//! where the denom has no record; a read of the stored rates gives the empty
//! list there.

use vstd::prelude::*;

use crate::error::ContractError;
use crate::error::RateKind;
use crate::history::is_latest;
use crate::history::latest_record;
use crate::history::newest_first;
use crate::history::window;
use crate::history::RateEntry;
use crate::msg::HistoricalPurchaseRatesResponse;
use crate::msg::HistoricalRedemptionRatesResponse;
use crate::msg::PurchaseRate;
use crate::msg::PurchaseRateResponse;
use crate::msg::RedemptionRate;
use crate::msg::RedemptionRateResponse;
use crate::state::OracleState;
use crate::state::Rates;
use crate::validate::extension_empty;
use crate::validate::validate_extension_params;

verus! {

/// The answer to a query for the latest purchase rate of a denom with the
/// history `h`.
pub open spec fn purchase_rate_answer(h: Seq<RateEntry>, params: Option<Vec<u8>>) -> Result<
    PurchaseRateResponse,
    ContractError,
> {
    if !extension_empty(params) {
        Err(ContractError::InvalidRequest)
    } else {
        match latest_record(h) {
            Some(rates) => Ok(
                PurchaseRateResponse {
                    purchase_rate: rates.purchase_rate,
                    update_time: rates.update_time,
                },
            ),
            None => Err(ContractError::NotFound { rate: RateKind::Purchase }),
        }
    }
}

/// The answer to a query for the latest redemption rate of a denom with the
/// history `h`.
pub open spec fn redemption_rate_answer(h: Seq<RateEntry>, params: Option<Vec<u8>>) -> Result<
    RedemptionRateResponse,
    ContractError,
> {
    if !extension_empty(params) {
        Err(ContractError::InvalidRequest)
    } else {
        match latest_record(h) {
            Some(rates) => Ok(
                RedemptionRateResponse {
                    redemption_rate: rates.redemption_rate,
                    update_time: rates.update_time,
                },
            ),
            None => Err(ContractError::NotFound { rate: RateKind::Redemption }),
        }
    }
}

/// `out` lists the purchase rates of `records`, one for one and in their
/// order, each under `denom`.
pub open spec fn purchase_rates_of(
    denom: Seq<char>,
    records: Seq<Rates>,
    out: Seq<PurchaseRate>,
) -> bool {
    &&& out.len() == records.len()
    &&& forall|i: int|
        0 <= i < out.len() ==> {
            &&& (#[trigger] out[i]).denom@ == denom
            &&& out[i].purchase_rate == records[i].purchase_rate
            &&& out[i].update_time == records[i].update_time
        }
}

/// `out` lists the redemption rates of `records`, one for one and in their
/// order, each under `denom`.
pub open spec fn redemption_rates_of(
    denom: Seq<char>,
    records: Seq<Rates>,
    out: Seq<RedemptionRate>,
) -> bool {
    &&& out.len() == records.len()
    &&& forall|i: int|
        0 <= i < out.len() ==> {
            &&& (#[trigger] out[i]).denom@ == denom
            &&& out[i].redemption_rate == records[i].redemption_rate
            &&& out[i].update_time == records[i].update_time
        }
}

/// `r` answers a query for the stored purchase rates of `denom`, whose history
/// is `h`: an error where the extension slot is filled, and else the records
/// of `h` from the latest down, cut off at the limit.
pub open spec fn historical_purchase_answer(
    h: Seq<RateEntry>,
    denom: Seq<char>,
    params: Option<Vec<u8>>,
    limit: Option<u64>,
    r: Result<HistoricalPurchaseRatesResponse, ContractError>,
) -> bool {
    match r {
        Ok(resp) => extension_empty(params) && purchase_rates_of(
            denom,
            newest_first(h, window(h.len(), limit)),
            resp.purchase_rates@,
        ),
        Err(e) => !extension_empty(params) && e == ContractError::InvalidRequest,
    }
}

/// `r` answers a query for the stored redemption rates of `denom`, whose
/// history is `h`: an error where the extension slot is filled, and else the
/// records of `h` from the latest down, cut off at the limit.
pub open spec fn historical_redemption_answer(
    h: Seq<RateEntry>,
    denom: Seq<char>,
    params: Option<Vec<u8>>,
    limit: Option<u64>,
    r: Result<HistoricalRedemptionRatesResponse, ContractError>,
) -> bool {
    match r {
        Ok(resp) => extension_empty(params) && redemption_rates_of(
            denom,
            newest_first(h, window(h.len(), limit)),
            resp.redemption_rates@,
        ),
        Err(e) => !extension_empty(params) && e == ContractError::InvalidRequest,
    }
}

/// The latest purchase rate of `denom`.
pub fn query_purchase_rate(state: &OracleState, denom: String, params: Option<Vec<u8>>) -> (r:
    Result<PurchaseRateResponse, ContractError>)
    requires
        state.wf(),
    ensures
        r == purchase_rate_answer(state.rates.history(denom@), params),
{
    match validate_extension_params(&params) {
        Ok(()) => {},
        Err(e) => {
            return Err(e);
        },
    }
    match get_latest_rates(state, denom) {
        Some(rates) => Ok(
            PurchaseRateResponse {
                purchase_rate: rates.purchase_rate,
                update_time: rates.update_time,
            },
        ),
        None => Err(ContractError::NotFound { rate: RateKind::Purchase }),
    }
}

/// The stored purchase rates of `denom`, the latest one first: all of them, or
/// at most `limit` where a limit is given.
pub fn query_historical_purchase_rates(
    state: &OracleState,
    denom: String,
    params: Option<Vec<u8>>,
    limit: Option<u64>,
) -> (r: Result<HistoricalPurchaseRatesResponse, ContractError>)
    requires
        state.wf(),
    ensures
        historical_purchase_answer(state.rates.history(denom@), denom@, params, limit, r),
{
    match validate_extension_params(&params) {
        Ok(()) => {},
        Err(e) => {
            return Err(e);
        },
    }
    let historical_rates = get_historical_rates(state, denom.clone(), limit);
    let n = historical_rates.len();
    let mut purchase_rates: Vec<PurchaseRate> = Vec::new();
    let mut i: usize = 0;
    while i < n
        invariant
            i <= n,
            n == historical_rates@.len(),
            purchase_rates_of(denom@, historical_rates@.take(i as int), purchase_rates@),
        decreases n - i,
    {
        let v = historical_rates[i];
        purchase_rates.push(
            PurchaseRate {
                denom: denom.clone(),
                purchase_rate: v.purchase_rate,
                update_time: v.update_time,
            },
        );
        i += 1;
    }
    assert(historical_rates@.take(n as int) =~= historical_rates@);
    Ok(HistoricalPurchaseRatesResponse { purchase_rates })
}

/// The latest redemption rate of `denom`.
pub fn query_redemption_rate(state: &OracleState, denom: String, params: Option<Vec<u8>>) -> (r:
    Result<RedemptionRateResponse, ContractError>)
    requires
        state.wf(),
    ensures
        r == redemption_rate_answer(state.rates.history(denom@), params),
{
    match validate_extension_params(&params) {
        Ok(()) => {},
        Err(e) => {
            return Err(e);
        },
    }
    match get_latest_rates(state, denom) {
        Some(rates) => Ok(
            RedemptionRateResponse {
                redemption_rate: rates.redemption_rate,
                update_time: rates.update_time,
            },
        ),
        None => Err(ContractError::NotFound { rate: RateKind::Redemption }),
    }
}

/// The stored redemption rates of `denom`, the latest one first: all of them,
/// or at most `limit` where a limit is given.
pub fn query_historical_redemption_rates(
    state: &OracleState,
    denom: String,
    params: Option<Vec<u8>>,
    limit: Option<u64>,
) -> (r: Result<HistoricalRedemptionRatesResponse, ContractError>)
    requires
        state.wf(),
    ensures
        historical_redemption_answer(state.rates.history(denom@), denom@, params, limit, r),
{
    match validate_extension_params(&params) {
        Ok(()) => {},
        Err(e) => {
            return Err(e);
        },
    }
    let historical_rates = get_historical_rates(state, denom.clone(), limit);
    let n = historical_rates.len();
    let mut redemption_rates: Vec<RedemptionRate> = Vec::new();
    let mut i: usize = 0;
    while i < n
        invariant
            i <= n,
            n == historical_rates@.len(),
            redemption_rates_of(denom@, historical_rates@.take(i as int), redemption_rates@),
        decreases n - i,
    {
        let v = historical_rates[i];
        redemption_rates.push(
            RedemptionRate {
                denom: denom.clone(),
                redemption_rate: v.redemption_rate,
                update_time: v.update_time,
            },
        );
        i += 1;
    }
    assert(historical_rates@.take(n as int) =~= historical_rates@);
    Ok(HistoricalRedemptionRatesResponse { redemption_rates })
}

/// The record of `denom` with the largest sequence, if it has any record.
pub fn get_latest_rates(state: &OracleState, denom: String) -> (r: Option<Rates>)
    requires
        state.wf(),
    ensures
        r == latest_record(state.rates.history(denom@)),
        r matches Some(rates) ==> is_latest(state.rates.history(denom@), rates),
{
    state.rates.latest(&denom)
}

/// The records of `denom` from the latest down: all of them, or at most
/// `limit` where a limit is given.
pub fn get_historical_rates(state: &OracleState, denom: String, limit: Option<u64>) -> (r: Vec<
    Rates,
>)
    requires
        state.wf(),
    ensures
        r@ == newest_first(
            state.rates.history(denom@),
            window(state.rates.history(denom@).len(), limit),
        ),
{
    state.rates.range(&denom, limit)
}

} // verus!
