use milkyway_oracle::context::{BlockInfo, Env, MessageInfo};
use milkyway_oracle::contract::{execute, instantiate, migrate, query, CONTRACT_NAME, CONTRACT_VERSION};
use milkyway_oracle::decimal::Decimal;
use milkyway_oracle::error::ContractError;
use milkyway_oracle::msg::{
    ExecuteMsg, HistoricalPurchaseRatesResponse, HistoricalRedemptionRatesResponse,
    InstantiateMsg, MigrateMsg, PurchaseRate, PurchaseRateResponse, QueryMsg, QueryResponse,
    RedemptionRate, RedemptionRateResponse,
};
use milkyway_oracle::state::OracleState;

const ADMIN_ADDRESS: &str = "my_address";

fn default_mock() -> (Env, MessageInfo) {
    let env = Env { block: BlockInfo { height: 12_345, time: 1_571_797_419 } };
    let info = MessageInfo { sender: ADMIN_ADDRESS.to_string() };
    (env, info)
}

// instantiate with the admin address
fn default_instantiate() -> (OracleState, Env, MessageInfo) {
    let (env, info) = default_mock();
    let msg = InstantiateMsg { admin_address: ADMIN_ADDRESS.to_string() };
    let (state, resp) = instantiate(env, info.clone(), msg);
    assert_eq!(resp.action, "instantiate");
    assert_eq!(resp.admin_address, ADMIN_ADDRESS.to_string());
    (state, env, info)
}

fn test_params() -> Option<Vec<u8>> {
    Some(cosmwasm_std::to_json_binary("test").unwrap().to_vec())
}

fn post(denom: &str, purchase_rate: &str, redemption_rate: &str) -> ExecuteMsg {
    ExecuteMsg::PostRates {
        denom: denom.to_string(),
        purchase_rate: purchase_rate.to_string(),
        redemption_rate: redemption_rate.to_string(),
    }
}

#[test]
fn test_config() {
    let (state, env, _info) = default_instantiate();
    let msg = QueryMsg::Config {};
    let resp = query(&state, env, msg).unwrap();
    match resp {
        QueryResponse::Config(resp) => {
            assert_eq!(resp.admin_address, ADMIN_ADDRESS.to_string());
        }
        other => panic!("unexpected answer: {:?}", other),
    }
}

#[test]
fn test_rates_not_found() {
    let (state, env, _info) = default_instantiate();
    let denom = "factory/denom";

    let msg = QueryMsg::PurchaseRate { denom: denom.to_string(), params: None };
    let resp = query(&state, env, msg);
    assert_eq!(resp.unwrap_err().to_string(), "Generic error: purchase rate not found");

    let msg = QueryMsg::RedemptionRate { denom: denom.to_string(), params: None };
    let resp = query(&state, env, msg);
    assert_eq!(resp.unwrap_err().to_string(), "Generic error: redemption rate not found");
}

#[test]
fn test_params_not_none() {
    let (state, env, _info) = default_instantiate();
    let denom = "factory/denom";

    let msg = QueryMsg::PurchaseRate { denom: denom.to_string(), params: test_params() };
    let resp = query(&state, env, msg);
    assert_eq!(
        resp.unwrap_err().to_string(),
        "Generic error: invalid query request - params must be None"
    );

    let msg = QueryMsg::RedemptionRate { denom: denom.to_string(), params: test_params() };
    let resp = query(&state, env, msg);
    assert_eq!(
        resp.unwrap_err().to_string(),
        "Generic error: invalid query request - params must be None"
    );

    let msg = QueryMsg::HistoricalPurchaseRates {
        denom: denom.to_string(),
        params: test_params(),
        limit: None,
    };
    let resp = query(&state, env, msg);
    assert_eq!(
        resp.unwrap_err().to_string(),
        "Generic error: invalid query request - params must be None"
    );

    let msg = QueryMsg::HistoricalRedemptionRates {
        denom: denom.to_string(),
        params: test_params(),
        limit: None,
    };
    let resp = query(&state, env, msg);
    assert_eq!(
        resp.unwrap_err().to_string(),
        "Generic error: invalid query request - params must be None"
    );
}

#[test]
fn test_post_rates() {
    // Instantiate contract
    let (mut state, env, info) = default_instantiate();
    let denom = "factory/denom";

    // Post rates
    let msg = post(denom, "0.9", "1.1");
    let resp = execute(&mut state, env, info, msg).unwrap();
    assert_eq!(
        vec![
            ("action", resp.action.clone()),
            ("denom", resp.denom.clone()),
            ("purchase_rate", resp.purchase_rate.clone()),
            ("redemption_rate", resp.redemption_rate.clone()),
            ("update_time", resp.update_time.to_string()),
        ],
        vec![
            ("action", "post_rates".to_string()),
            ("denom", denom.to_string()),
            ("purchase_rate", "0.9".to_string()),
            ("redemption_rate", "1.1".to_string()),
            ("update_time", "1571797419".to_string()),
        ]
    );
    assert_eq!(resp.update_time, 1571797419);
    assert_eq!(resp.evicted, None);

    let msg = QueryMsg::PurchaseRate { denom: denom.to_string(), params: None };
    let resp = query(&state, env, msg).unwrap();
    assert_eq!(
        resp,
        QueryResponse::PurchaseRate(PurchaseRateResponse {
            purchase_rate: Decimal::from_str("0.9").unwrap(),
            update_time: 1571797419,
        })
    );

    let msg = QueryMsg::RedemptionRate { denom: denom.to_string(), params: None };
    let resp = query(&state, env, msg).unwrap();
    assert_eq!(
        resp,
        QueryResponse::RedemptionRate(RedemptionRateResponse {
            redemption_rate: Decimal::from_str("1.1").unwrap(),
            update_time: 1571797419,
        })
    );
}

#[test]
fn test_historical_post_rates() {
    // Instantiate contract
    let (mut state, mut env, info) = default_instantiate();
    let denom = "factory/denom";

    // Post rates
    let msg = post(denom, "0.9", "1.1");
    execute(&mut state, env, info.clone(), msg).unwrap();

    env.block.height += 10;
    env.block.time += 50;

    // Post rates again
    let msg = post(denom, "0.8", "1.2");
    execute(&mut state, env, info, msg).unwrap();

    let msg = QueryMsg::PurchaseRate { denom: denom.to_string(), params: None };
    let resp = query(&state, env, msg).unwrap();
    assert_eq!(
        resp,
        QueryResponse::PurchaseRate(PurchaseRateResponse {
            purchase_rate: Decimal::from_str("0.8").unwrap(),
            update_time: 1571797469,
        })
    );

    let msg = QueryMsg::HistoricalPurchaseRates {
        denom: denom.to_string(),
        params: None,
        limit: None,
    };
    let resp = query(&state, env, msg).unwrap();
    assert_eq!(
        resp,
        QueryResponse::HistoricalPurchaseRates(HistoricalPurchaseRatesResponse {
            purchase_rates: vec![
                PurchaseRate {
                    denom: denom.to_string(),
                    purchase_rate: Decimal::from_str("0.8").unwrap(),
                    update_time: 1571797469,
                },
                PurchaseRate {
                    denom: denom.to_string(),
                    purchase_rate: Decimal::from_str("0.9").unwrap(),
                    update_time: 1571797419,
                },
            ]
        })
    );

    let msg = QueryMsg::RedemptionRate { denom: denom.to_string(), params: None };
    let resp = query(&state, env, msg).unwrap();
    assert_eq!(
        resp,
        QueryResponse::RedemptionRate(RedemptionRateResponse {
            redemption_rate: Decimal::from_str("1.2").unwrap(),
            update_time: 1571797469,
        })
    );

    let msg = QueryMsg::HistoricalRedemptionRates {
        denom: denom.to_string(),
        params: None,
        limit: None,
    };
    let resp = query(&state, env, msg).unwrap();
    assert_eq!(
        resp,
        QueryResponse::HistoricalRedemptionRates(HistoricalRedemptionRatesResponse {
            redemption_rates: vec![
                RedemptionRate {
                    denom: denom.to_string(),
                    redemption_rate: Decimal::from_str("1.2").unwrap(),
                    update_time: 1571797469,
                },
                RedemptionRate {
                    denom: denom.to_string(),
                    redemption_rate: Decimal::from_str("1.1").unwrap(),
                    update_time: 1571797419,
                },
            ]
        })
    );
}

#[test]
fn instantiate_writes_name_and_version() {
    let (state, _env, _info) = default_instantiate();
    assert_eq!(state.contract.contract, CONTRACT_NAME);
    assert_eq!(state.contract.version, CONTRACT_VERSION);
    assert_eq!(state.config.admin_address, ADMIN_ADDRESS);
}

#[test]
fn post_rates_from_stranger_is_unauthorized_and_changes_nothing() {
    let (mut state, env, info) = default_instantiate();
    let denom = "factory/denom";
    execute(&mut state, env, info, post(denom, "0.9", "1.1")).unwrap();

    let stranger = MessageInfo { sender: "somebody_else".to_string() };
    let mut later = env;
    later.block.height += 1;
    later.block.time += 5;
    let resp = execute(&mut state, later, stranger, post(denom, "0.5", "1.5"));
    assert_eq!(resp.unwrap_err(), ContractError::Unauthorized);

    assert_eq!(state.config.admin_address, ADMIN_ADDRESS);
    let msg = QueryMsg::HistoricalPurchaseRates {
        denom: denom.to_string(),
        params: None,
        limit: None,
    };
    assert_eq!(
        query(&state, later, msg).unwrap(),
        QueryResponse::HistoricalPurchaseRates(HistoricalPurchaseRatesResponse {
            purchase_rates: vec![PurchaseRate {
                denom: denom.to_string(),
                purchase_rate: Decimal::from_str("0.9").unwrap(),
                update_time: 1571797419,
            }]
        })
    );
}

#[test]
fn post_rates_with_malformed_rate_changes_nothing() {
    let (mut state, env, info) = default_instantiate();
    let denom = "factory/denom";

    let resp = execute(&mut state, env, info.clone(), post(denom, "abc", "1.1"));
    assert_eq!(
        resp.unwrap_err(),
        ContractError::MalformedRate { rate: milkyway_oracle::error::RateKind::Purchase }
    );
    let resp = execute(&mut state, env, info.clone(), post(denom, "0.9", "1.1.1"));
    assert_eq!(
        resp.unwrap_err(),
        ContractError::MalformedRate { rate: milkyway_oracle::error::RateKind::Redemption }
    );
    // the rates are read before the sender is looked at
    let stranger = MessageInfo { sender: "somebody_else".to_string() };
    let resp = execute(&mut state, env, stranger, post(denom, "", "1.1"));
    assert_eq!(
        resp.unwrap_err(),
        ContractError::MalformedRate { rate: milkyway_oracle::error::RateKind::Purchase }
    );

    let msg = QueryMsg::PurchaseRate { denom: denom.to_string(), params: None };
    assert_eq!(
        query(&state, env, msg).unwrap_err(),
        ContractError::NotFound { rate: milkyway_oracle::error::RateKind::Purchase }
    );
}

#[test]
fn post_rates_prints_rates_without_trailing_zeros() {
    let (mut state, env, info) = default_instantiate();
    let resp = execute(&mut state, env, info, post("factory/denom", "0.900", "0001.10")).unwrap();
    assert_eq!(resp.purchase_rate, "0.9");
    assert_eq!(resp.redemption_rate, "1.1");
}

#[test]
fn post_rates_twice_in_one_block_overwrites() {
    let (mut state, env, info) = default_instantiate();
    let denom = "factory/denom";
    execute(&mut state, env, info.clone(), post(denom, "0.9", "1.1")).unwrap();
    execute(&mut state, env, info, post(denom, "0.7", "1.3")).unwrap();

    let msg = QueryMsg::HistoricalPurchaseRates {
        denom: denom.to_string(),
        params: None,
        limit: None,
    };
    assert_eq!(
        query(&state, env, msg).unwrap(),
        QueryResponse::HistoricalPurchaseRates(HistoricalPurchaseRatesResponse {
            purchase_rates: vec![PurchaseRate {
                denom: denom.to_string(),
                purchase_rate: Decimal::from_str("0.7").unwrap(),
                update_time: 1571797419,
            }]
        })
    );
}

#[test]
fn params_without_bytes_are_accepted() {
    let (mut state, env, info) = default_instantiate();
    let denom = "factory/denom";
    execute(&mut state, env, info, post(denom, "0.9", "1.1")).unwrap();

    let msg = QueryMsg::PurchaseRate { denom: denom.to_string(), params: Some(vec![]) };
    assert_eq!(
        query(&state, env, msg).unwrap(),
        QueryResponse::PurchaseRate(PurchaseRateResponse {
            purchase_rate: Decimal::from_str("0.9").unwrap(),
            update_time: 1571797419,
        })
    );
    let msg = QueryMsg::RedemptionRate { denom: denom.to_string(), params: Some(vec![]) };
    assert_eq!(
        query(&state, env, msg).unwrap(),
        QueryResponse::RedemptionRate(RedemptionRateResponse {
            redemption_rate: Decimal::from_str("1.1").unwrap(),
            update_time: 1571797419,
        })
    );
    let msg = QueryMsg::HistoricalRedemptionRates {
        denom: denom.to_string(),
        params: Some(vec![]),
        limit: None,
    };
    assert_eq!(
        query(&state, env, msg).unwrap(),
        QueryResponse::HistoricalRedemptionRates(HistoricalRedemptionRatesResponse {
            redemption_rates: vec![RedemptionRate {
                denom: denom.to_string(),
                redemption_rate: Decimal::from_str("1.1").unwrap(),
                update_time: 1571797419,
            }]
        })
    );
    // on a denom without records the lookup decides, not the slot
    let msg = QueryMsg::PurchaseRate { denom: "unknown".to_string(), params: Some(vec![]) };
    assert_eq!(
        query(&state, env, msg).unwrap_err(),
        ContractError::NotFound { rate: milkyway_oracle::error::RateKind::Purchase }
    );
}

#[test]
fn params_are_checked_before_the_denom_is_looked_up() {
    let (mut state, env, info) = default_instantiate();
    let denom = "factory/denom";
    execute(&mut state, env, info, post(denom, "0.9", "1.1")).unwrap();

    let msg = QueryMsg::PurchaseRate { denom: denom.to_string(), params: Some(vec![0]) };
    assert_eq!(query(&state, env, msg).unwrap_err(), ContractError::InvalidRequest);
    let msg = QueryMsg::RedemptionRate { denom: "unknown".to_string(), params: Some(vec![0]) };
    assert_eq!(query(&state, env, msg).unwrap_err(), ContractError::InvalidRequest);
}

#[test]
fn historical_rates_of_unknown_denom_are_empty() {
    let (state, env, _info) = default_instantiate();
    let msg = QueryMsg::HistoricalPurchaseRates {
        denom: "unknown".to_string(),
        params: None,
        limit: None,
    };
    assert_eq!(
        query(&state, env, msg).unwrap(),
        QueryResponse::HistoricalPurchaseRates(HistoricalPurchaseRatesResponse {
            purchase_rates: vec![]
        })
    );
    let msg = QueryMsg::HistoricalRedemptionRates {
        denom: "unknown".to_string(),
        params: None,
        limit: Some(5),
    };
    assert_eq!(
        query(&state, env, msg).unwrap(),
        QueryResponse::HistoricalRedemptionRates(HistoricalRedemptionRatesResponse {
            redemption_rates: vec![]
        })
    );
}

#[test]
fn historical_rates_respect_the_limit() {
    let (mut state, mut env, info) = default_instantiate();
    let denom = "factory/denom";
    for rate in ["0.1", "0.2", "0.3"] {
        execute(&mut state, env, info.clone(), post(denom, rate, "1")).unwrap();
        env.block.height += 1;
        env.block.time += 6;
    }
    let msg = QueryMsg::HistoricalPurchaseRates {
        denom: denom.to_string(),
        params: None,
        limit: Some(2),
    };
    assert_eq!(
        query(&state, env, msg).unwrap(),
        QueryResponse::HistoricalPurchaseRates(HistoricalPurchaseRatesResponse {
            purchase_rates: vec![
                PurchaseRate {
                    denom: denom.to_string(),
                    purchase_rate: Decimal::from_str("0.3").unwrap(),
                    update_time: 1571797431,
                },
                PurchaseRate {
                    denom: denom.to_string(),
                    purchase_rate: Decimal::from_str("0.2").unwrap(),
                    update_time: 1571797425,
                },
            ]
        })
    );
    let msg = QueryMsg::HistoricalPurchaseRates {
        denom: denom.to_string(),
        params: None,
        limit: Some(0),
    };
    assert_eq!(
        query(&state, env, msg).unwrap(),
        QueryResponse::HistoricalPurchaseRates(HistoricalPurchaseRatesResponse {
            purchase_rates: vec![]
        })
    );
}

#[test]
fn history_is_capped_at_one_hundred_records() {
    let (mut state, mut env, info) = default_instantiate();
    let denom = "factory/denom";
    let first_height = env.block.height;
    let first_time = env.block.time;
    for i in 0..101u64 {
        env.block.height = first_height + i;
        env.block.time = first_time + i;
        let resp = execute(&mut state, env, info.clone(), post(denom, "0.9", "1.1")).unwrap();
        if i < 100 {
            assert_eq!(resp.evicted, None);
        } else {
            assert_eq!(resp.evicted, Some(first_height));
        }
    }
    let msg = QueryMsg::HistoricalPurchaseRates {
        denom: denom.to_string(),
        params: None,
        limit: None,
    };
    match query(&state, env, msg).unwrap() {
        QueryResponse::HistoricalPurchaseRates(resp) => {
            assert_eq!(resp.purchase_rates.len(), 100);
            // the latest record comes first, the oldest one that is left comes last
            assert_eq!(resp.purchase_rates[0].update_time, first_time + 100);
            assert_eq!(resp.purchase_rates[99].update_time, first_time + 1);
        }
        other => panic!("unexpected answer: {:?}", other),
    }
    // one more write, one more eviction
    env.block.height = first_height + 101;
    env.block.time = first_time + 101;
    let resp = execute(&mut state, env, info, post(denom, "0.9", "1.1")).unwrap();
    assert_eq!(resp.evicted, Some(first_height + 1));
    assert_eq!(state.rates.count(&denom.to_string()), 100);
}

#[test]
fn denoms_do_not_share_a_history() {
    let (mut state, mut env, info) = default_instantiate();
    execute(&mut state, env, info.clone(), post("a", "0.1", "1.1")).unwrap();
    env.block.height += 1;
    env.block.time += 1;
    execute(&mut state, env, info, post("b", "0.2", "1.2")).unwrap();

    let msg = QueryMsg::PurchaseRate { denom: "a".to_string(), params: None };
    assert_eq!(
        query(&state, env, msg).unwrap(),
        QueryResponse::PurchaseRate(PurchaseRateResponse {
            purchase_rate: Decimal::from_str("0.1").unwrap(),
            update_time: 1571797419,
        })
    );
    assert_eq!(state.rates.count(&"a".to_string()), 1);
    assert_eq!(state.rates.count(&"b".to_string()), 1);
    assert_eq!(state.rates.count(&"c".to_string()), 0);
}

#[test]
fn migrate_to_the_same_version_is_refused() {
    let (mut state, env, _info) = default_instantiate();
    let resp = migrate(&mut state, env, MigrateMsg {});
    assert_eq!(resp.unwrap_err(), ContractError::InvalidVersionTransition);
    assert_eq!(state.contract.contract, CONTRACT_NAME);
    assert_eq!(state.contract.version, CONTRACT_VERSION);
}

#[test]
fn migrate_to_a_lower_version_is_refused() {
    let (mut state, env, _info) = default_instantiate();
    state.contract.version = "0.2.0".to_string();
    let resp = migrate(&mut state, env, MigrateMsg {});
    assert_eq!(resp.unwrap_err(), ContractError::InvalidVersionTransition);
    assert_eq!(state.contract.version, "0.2.0");
}

#[test]
fn migrate_from_an_older_version_records_the_new_one() {
    let (mut state, env, info) = default_instantiate();
    execute(&mut state, env, info, post("factory/denom", "0.9", "1.1")).unwrap();
    state.contract.version = "0.0.9".to_string();
    migrate(&mut state, env, MigrateMsg {}).unwrap();
    assert_eq!(state.contract.contract, CONTRACT_NAME);
    assert_eq!(state.contract.version, CONTRACT_VERSION);
    assert_eq!(state.config.admin_address, ADMIN_ADDRESS);
    assert_eq!(state.rates.count(&"factory/denom".to_string()), 1);
}

#[test]
fn migrate_of_another_contract_is_refused() {
    let (mut state, env, _info) = default_instantiate();
    state.contract.contract = "crates.io:something-else".to_string();
    state.contract.version = "0.0.1".to_string();
    let resp = migrate(&mut state, env, MigrateMsg {});
    assert_eq!(resp.unwrap_err(), ContractError::InvalidVersionTransition);
    assert_eq!(state.contract.version, "0.0.1");
}

#[test]
fn migrate_from_an_unreadable_version_is_refused() {
    let (mut state, env, _info) = default_instantiate();
    state.contract.version = "one".to_string();
    let resp = migrate(&mut state, env, MigrateMsg {});
    assert_eq!(resp.unwrap_err(), ContractError::InvalidVersionTransition);
    assert_eq!(state.contract.version, "one");
}
