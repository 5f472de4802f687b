//! The entry points: setting the oracle up, routing a write or a read to its
//! handler, and upgrading a state to the version of this crate.

use vstd::prelude::*;

use crate::context::Env;
use crate::context::MessageInfo;
use crate::decimal::Decimal;
use crate::error::ContractError;
use crate::error::RateKind;
use crate::execute::post_rates;
use crate::execute::posted;
use crate::history::RateEntry;
use crate::ledger::RateLedger;
use crate::msg::ExecuteMsg;
use crate::msg::InstantiateMsg;
use crate::msg::InstantiateResponse;
use crate::msg::MigrateMsg;
use crate::msg::PostRatesResponse;
use crate::msg::QueryMsg;
use crate::msg::QueryResponse;
use crate::query::historical_purchase_answer;
use crate::query::historical_redemption_answer;
use crate::query::purchase_rate_answer;
use crate::query::query_historical_purchase_rates;
use crate::query::query_historical_redemption_rates;
use crate::query::query_purchase_rate;
use crate::query::query_redemption_rate;
use crate::query::redemption_rate_answer;
use crate::state::Config;
use crate::state::ContractVersion;
use crate::state::OracleState;
use crate::validate::extension_empty;
use crate::version::ensure_newer;
use crate::version::transition;
use crate::version::version_order;

verus! {

/// The name under which a state of this contract is known.
pub const CONTRACT_NAME: &'static str = "crates.io:milkyway-oracle";

/// The version that this crate writes into a state.
pub const CONTRACT_VERSION: &'static str = "0.1.0";

/// Sets the oracle up: a state of this contract at this version, with the
/// admin of `msg` and without any record.
pub fn instantiate(_env: Env, _info: MessageInfo, msg: InstantiateMsg) -> (r: (
    OracleState,
    InstantiateResponse,
))
    ensures
        r.0.wf(),
        r.0.rates.bounded(),
        forall|denom: Seq<char>| #[trigger] r.0.rates.history(denom) == Seq::<RateEntry>::empty(),
        r.0.config.admin_address@ == msg.admin_address@,
        r.0.contract.contract@ == CONTRACT_NAME@,
        r.0.contract.version@ == CONTRACT_VERSION@,
        r.1.action@ == "instantiate"@,
        r.1.admin_address@ == msg.admin_address@,
{
    let state = OracleState {
        contract: ContractVersion {
            contract: CONTRACT_NAME.to_owned(),
            version: CONTRACT_VERSION.to_owned(),
        },
        config: Config { admin_address: msg.admin_address.clone() },
        rates: RateLedger::new(),
    };
    let resp = InstantiateResponse {
        action: "instantiate".to_owned(),
        admin_address: msg.admin_address,
    };
    (state, resp)
}

/// Routes a write to its handler.
pub fn execute(state: &mut OracleState, env: Env, info: MessageInfo, msg: ExecuteMsg) -> (r:
    Result<PostRatesResponse, ContractError>)
    requires
        old(state).wf(),
    ensures
        match msg {
            ExecuteMsg::PostRates { denom, purchase_rate, redemption_rate } => posted(
                *old(state),
                *final(state),
                env,
                info.sender@,
                denom@,
                Decimal::parsed(purchase_rate@),
                Decimal::parsed(redemption_rate@),
                r,
            ),
        },
        old(state).rates.bounded() ==> final(state).rates.bounded(),
{
    match msg {
        ExecuteMsg::PostRates { denom, purchase_rate, redemption_rate } => post_rates(
            state,
            env,
            info,
            denom,
            purchase_rate,
            redemption_rate,
        ),
    }
}

/// `r` answers the query `msg` on `state`: it is of the kind of the query, and
/// it is what the handler of that kind answers.
pub open spec fn answers(state: OracleState, msg: QueryMsg, r: Result<QueryResponse, ContractError>) -> bool {
    match msg {
        QueryMsg::Config {  } => r matches Ok(QueryResponse::Config(config)) && config
            == state.config,
        QueryMsg::RedemptionRate { denom, params } => r == match redemption_rate_answer(
            state.rates.history(denom@),
            params,
        ) {
            Ok(resp) => Ok::<QueryResponse, ContractError>(QueryResponse::RedemptionRate(resp)),
            Err(e) => Err(e),
        },
        QueryMsg::HistoricalRedemptionRates { denom, params, limit } => match r {
            Ok(QueryResponse::HistoricalRedemptionRates(resp)) => historical_redemption_answer(
                state.rates.history(denom@),
                denom@,
                params,
                limit,
                Ok(resp),
            ),
            Ok(_) => false,
            Err(e) => historical_redemption_answer(
                state.rates.history(denom@),
                denom@,
                params,
                limit,
                Err(e),
            ),
        },
        QueryMsg::PurchaseRate { denom, params } => r == match purchase_rate_answer(
            state.rates.history(denom@),
            params,
        ) {
            Ok(resp) => Ok::<QueryResponse, ContractError>(QueryResponse::PurchaseRate(resp)),
            Err(e) => Err(e),
        },
        QueryMsg::HistoricalPurchaseRates { denom, params, limit } => match r {
            Ok(QueryResponse::HistoricalPurchaseRates(resp)) => historical_purchase_answer(
                state.rates.history(denom@),
                denom@,
                params,
                limit,
                Ok(resp),
            ),
            Ok(_) => false,
            Err(e) => historical_purchase_answer(
                state.rates.history(denom@),
                denom@,
                params,
                limit,
                Err(e),
            ),
        },
    }
}

/// The extension slot of a query. A query for the configuration has none.
pub open spec fn params_of(msg: QueryMsg) -> Option<Vec<u8>> {
    match msg {
        QueryMsg::Config {  } => None,
        QueryMsg::RedemptionRate { denom, params } => params,
        QueryMsg::HistoricalRedemptionRates { denom, params, limit } => params,
        QueryMsg::PurchaseRate { denom, params } => params,
        QueryMsg::HistoricalPurchaseRates { denom, params, limit } => params,
    }
}

/// A query whose extension slot is filled is turned down as invalid, whether
/// or not its denom has records.
pub proof fn lemma_filled_extension_is_invalid(
    state: OracleState,
    msg: QueryMsg,
    r: Result<QueryResponse, ContractError>,
)
    requires
        answers(state, msg, r),
        !extension_empty(params_of(msg)),
    ensures
        r == Err::<QueryResponse, ContractError>(ContractError::InvalidRequest),
{
}

/// A query for the latest purchase or redemption rate of a denom without
/// records finds nothing, provided that its extension slot is empty.
pub proof fn lemma_rate_of_empty_denom_not_found(
    state: OracleState,
    msg: QueryMsg,
    r: Result<QueryResponse, ContractError>,
)
    requires
        answers(state, msg, r),
        extension_empty(params_of(msg)),
    ensures
        msg matches QueryMsg::PurchaseRate { denom, params } && state.rates.history(denom@).len()
            == 0 ==> r == Err::<QueryResponse, ContractError>(
            ContractError::NotFound { rate: RateKind::Purchase },
        ),
        msg matches QueryMsg::RedemptionRate { denom, params } && state.rates.history(
            denom@,
        ).len() == 0 ==> r == Err::<QueryResponse, ContractError>(
            ContractError::NotFound { rate: RateKind::Redemption },
        ),
{
}

/// Routes a read to its handler.
pub fn query(state: &OracleState, _env: Env, msg: QueryMsg) -> (r: Result<
    QueryResponse,
    ContractError,
>)
    requires
        state.wf(),
    ensures
        answers(*state, msg, r),
{
    match msg {
        QueryMsg::Config {  } => Ok(QueryResponse::Config(state.config.clone())),
        QueryMsg::RedemptionRate { denom, params } => {
            match query_redemption_rate(state, denom, params) {
                Ok(resp) => Ok(QueryResponse::RedemptionRate(resp)),
                Err(e) => Err(e),
            }
        },
        QueryMsg::HistoricalRedemptionRates { denom, params, limit } => {
            match query_historical_redemption_rates(state, denom, params, limit) {
                Ok(resp) => Ok(QueryResponse::HistoricalRedemptionRates(resp)),
                Err(e) => Err(e),
            }
        },
        QueryMsg::PurchaseRate { denom, params } => {
            match query_purchase_rate(state, denom, params) {
                Ok(resp) => Ok(QueryResponse::PurchaseRate(resp)),
                Err(e) => Err(e),
            }
        },
        QueryMsg::HistoricalPurchaseRates { denom, params, limit } => {
            match query_historical_purchase_rates(state, denom, params, limit) {
                Ok(resp) => Ok(QueryResponse::HistoricalPurchaseRates(resp)),
                Err(e) => Err(e),
            }
        },
    }
}

/// What an upgrade of a state of the contract `contract` at the version
/// `stored` answers: it goes through exactly when the state is one of this
/// contract and its version is strictly older than the version of this crate.
pub open spec fn migration(contract: Seq<char>, stored: Seq<char>) -> Result<(), ContractError> {
    if contract != CONTRACT_NAME@ {
        Err(ContractError::InvalidVersionTransition)
    } else {
        transition(version_order(stored, CONTRACT_VERSION@))
    }
}

/// Upgrades `state` to the version of this crate. There is no data to carry
/// over: an upgrade that goes through records the new version and changes
/// nothing else. One that is turned down leaves the state as it was, and a
/// state that is at the version of this crate already is always turned down.
pub fn migrate(state: &mut OracleState, _env: Env, _msg: MigrateMsg) -> (r: Result<
    (),
    ContractError,
>)
    ensures
        r == migration(old(state).contract.contract@, old(state).contract.version@),
        old(state).contract.version@ == CONTRACT_VERSION@ ==> r.is_err(),
        r.is_err() ==> *final(state) == *old(state),
        r.is_ok() ==> {
            &&& final(state).contract.contract == old(state).contract.contract
            &&& final(state).contract.version@ == CONTRACT_VERSION@
            &&& final(state).config == old(state).config
            &&& final(state).rates == old(state).rates
        },
{
    let name = CONTRACT_NAME.to_owned();
    if !(state.contract.contract == name) {
        return Err(ContractError::InvalidVersionTransition);
    }
    match ensure_newer(state.contract.version.as_str(), CONTRACT_VERSION) {
        Ok(()) => {},
        Err(e) => {
            return Err(e);
        },
    }
    state.contract.version = CONTRACT_VERSION.to_owned();
    Ok(())
}

} // verus!
