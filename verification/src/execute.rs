//! The write: posting the rates of a denom.
//!
//! A write is checked before it touches anything. Both rates must be exact
//! decimals, and the sender must be the admin. Then the record is written under
//! the height of the block, and the bound on the history of the denom is
//! restored. A write that is turned down leaves the state as it was.

use vstd::prelude::*;

use crate::access::authorize;
use crate::context::Env;
use crate::context::MessageInfo;
use crate::decimal::decimal_text;
use crate::decimal::Decimal;
use crate::error::ContractError;
use crate::error::RateKind;
use crate::history::evicted;
use crate::history::inserted;
use crate::history::is_minimum;
use crate::history::record_at;
use crate::history::stores;
use crate::history::written;
use crate::history::RateEntry;
use crate::msg::PostRatesResponse;
use crate::state::OracleState;
use crate::state::Rates;

verus! {

/// The entry that a write of the two rates makes in the block of `env`.
pub open spec fn entry_of(env: Env, purchase: Decimal, redemption: Decimal) -> RateEntry {
    RateEntry {
        sequence: env.block.height,
        rates: Rates {
            purchase_rate: purchase,
            redemption_rate: redemption,
            update_time: env.block.time,
        },
    }
}

/// `resp` acknowledges the write of `entry` to `denom`.
pub open spec fn acknowledges(
    resp: PostRatesResponse,
    denom: Seq<char>,
    entry: RateEntry,
    evicted: Option<u64>,
) -> bool {
    &&& resp.action@ == "post_rates"@
    &&& resp.denom@ == denom
    &&& resp.purchase_rate@ == decimal_text(entry.rates.purchase_rate.atomics)
    &&& resp.redemption_rate@ == decimal_text(entry.rates.redemption_rate.atomics)
    &&& resp.update_time == entry.rates.update_time
    &&& resp.evicted == evicted
}

/// What a write does, given what reading the two rates gave.
///
/// A rate that could not be read turns the write down as malformed, the
/// purchase rate first. A sender other than the admin is turned down as
/// unauthorized. In both cases the state stays as it was. Otherwise the entry
/// is written to the history of the denom, the bound is restored on that
/// history, and nothing else changes.
pub open spec fn posted(
    before: OracleState,
    after: OracleState,
    env: Env,
    sender: Seq<char>,
    denom: Seq<char>,
    purchase: Option<Decimal>,
    redemption: Option<Decimal>,
    r: Result<PostRatesResponse, ContractError>,
) -> bool {
    if purchase.is_none() {
        r == Err::<PostRatesResponse, ContractError>(
            ContractError::MalformedRate { rate: RateKind::Purchase },
        ) && after == before
    } else if redemption.is_none() {
        r == Err::<PostRatesResponse, ContractError>(
            ContractError::MalformedRate { rate: RateKind::Redemption },
        ) && after == before
    } else if sender != before.config.admin_address@ {
        r == Err::<PostRatesResponse, ContractError>(ContractError::Unauthorized) && after
            == before
    } else {
        let entry = entry_of(env, purchase.unwrap(), redemption.unwrap());
        let h = before.rates.history(denom);
        &&& r.is_ok()
        &&& acknowledges(r.unwrap(), denom, entry, evicted(inserted(h, entry)))
        &&& after.contract == before.contract
        &&& after.config == before.config
        &&& after.rates.wf()
        &&& after.rates.history(denom) == written(h, entry)
        &&& forall|other: Seq<char>|
            other != denom ==> #[trigger] after.rates.history(other) == before.rates.history(
                other,
            )
    }
}

/// A write that is turned down changes nothing.
pub proof fn lemma_failed_post_changes_nothing(
    before: OracleState,
    after: OracleState,
    env: Env,
    sender: Seq<char>,
    denom: Seq<char>,
    purchase: Option<Decimal>,
    redemption: Option<Decimal>,
    r: Result<PostRatesResponse, ContractError>,
)
    requires
        posted(before, after, env, sender, denom, purchase, redemption, r),
        r.is_err(),
    ensures
        after == before,
{
}

/// A write of two readable rates by anybody but the admin is turned down as
/// unauthorized, and changes neither the ledger nor the configuration.
pub proof fn lemma_stranger_changes_nothing(
    before: OracleState,
    after: OracleState,
    env: Env,
    sender: Seq<char>,
    denom: Seq<char>,
    purchase: Option<Decimal>,
    redemption: Option<Decimal>,
    r: Result<PostRatesResponse, ContractError>,
)
    requires
        posted(before, after, env, sender, denom, purchase, redemption, r),
        purchase.is_some(),
        redemption.is_some(),
        sender != before.config.admin_address@,
    ensures
        r == Err::<PostRatesResponse, ContractError>(ContractError::Unauthorized),
        after == before,
{
}

/// After a write, whether it went through or not, no denom holds more records
/// than the bound allows, provided that none did before.
pub proof fn lemma_post_keeps_bound(
    before: OracleState,
    after: OracleState,
    env: Env,
    sender: Seq<char>,
    denom: Seq<char>,
    purchase: Option<Decimal>,
    redemption: Option<Decimal>,
    r: Result<PostRatesResponse, ContractError>,
)
    requires
        before.wf(),
        before.rates.bounded(),
        posted(before, after, env, sender, denom, purchase, redemption, r),
    ensures
        after.wf(),
        after.rates.bounded(),
{
    if r.is_ok() {
        let entry = entry_of(env, purchase.unwrap(), redemption.unwrap());
        crate::history::lemma_write_keeps_bound(before.rates.history(denom), entry);
        assert forall|other: Seq<char>| #[trigger]
            after.rates.history(other).len() <= crate::state::MAX_NUM_HISTORICAL_RATES by {
            if other != denom {
                assert(after.rates.history(other) == before.rates.history(other));
            }
        }
    }
}

/// Where a write evicts a record, that record is the one with the smallest
/// sequence among those stored for the denom once the new record is written,
/// and no other record of the denom is touched.
pub proof fn lemma_post_evicts_minimum(
    before: OracleState,
    after: OracleState,
    env: Env,
    sender: Seq<char>,
    denom: Seq<char>,
    purchase: Option<Decimal>,
    redemption: Option<Decimal>,
    r: Result<PostRatesResponse, ContractError>,
)
    requires
        before.wf(),
        posted(before, after, env, sender, denom, purchase, redemption, r),
        r.is_ok(),
        r.unwrap().evicted.is_some(),
    ensures
        ({
            let entry = entry_of(env, purchase.unwrap(), redemption.unwrap());
            let full = inserted(before.rates.history(denom), entry);
            let gone = r.unwrap().evicted.unwrap();
            &&& is_minimum(full, gone)
            &&& !stores(after.rates.history(denom), gone)
            &&& forall|s: u64|
                s != gone ==> record_at(after.rates.history(denom), s) == record_at(full, s)
        }),
{
    let entry = entry_of(env, purchase.unwrap(), redemption.unwrap());
    crate::history::lemma_write_evicts_minimum(before.rates.history(denom), entry);
}

/// Posts the two rates of `denom`, given what reading their texts gave.
///
/// Where the histories were within the bound before, they are within it after.
pub fn post_parsed_rates(
    state: &mut OracleState,
    env: Env,
    info: MessageInfo,
    denom: String,
    purchase: Option<Decimal>,
    redemption: Option<Decimal>,
) -> (r: Result<PostRatesResponse, ContractError>)
    requires
        old(state).wf(),
    ensures
        posted(*old(state), *final(state), env, info.sender@, denom@, purchase, redemption, r),
        old(state).rates.bounded() ==> final(state).rates.bounded(),
{
    let purchase_rate = match purchase {
        Some(rate) => rate,
        None => {
            return Err(ContractError::MalformedRate { rate: RateKind::Purchase });
        },
    };
    let redemption_rate = match redemption {
        Some(rate) => rate,
        None => {
            return Err(ContractError::MalformedRate { rate: RateKind::Redemption });
        },
    };
    match authorize(&info.sender, &state.config) {
        Ok(()) => {},
        Err(e) => {
            return Err(e);
        },
    }
    let update_time = env.block.time;
    let rates = Rates { purchase_rate, redemption_rate, update_time };
    state.rates.append(denom.clone(), env.block.height, rates);
    let dropped = state.rates.prune(&denom);
    let ghost name = denom@;
    let r: Result<PostRatesResponse, ContractError> = Ok(
        PostRatesResponse {
            action: "post_rates".to_owned(),
            denom,
            purchase_rate: purchase_rate.to_string(),
            redemption_rate: redemption_rate.to_string(),
            update_time,
            evicted: dropped,
        },
    );
    proof {
        if old(state).rates.bounded() {
            lemma_post_keeps_bound(
                *old(state),
                *state,
                env,
                info.sender@,
                name,
                purchase,
                redemption,
                r,
            );
        }
    }
    r
}

/// Posts the two rates of `denom`, each given as the text of an exact decimal.
///
/// The texts are read first, as [`Decimal::parsed`] says; what follows is
/// [`post_parsed_rates`].
pub fn post_rates(
    state: &mut OracleState,
    env: Env,
    info: MessageInfo,
    denom: String,
    purchase_rate: String,
    redemption_rate: String,
) -> (r: Result<PostRatesResponse, ContractError>)
    requires
        old(state).wf(),
    ensures
        posted(
            *old(state),
            *final(state),
            env,
            info.sender@,
            denom@,
            Decimal::parsed(purchase_rate@),
            Decimal::parsed(redemption_rate@),
            r,
        ),
        old(state).rates.bounded() ==> final(state).rates.bounded(),
{
    let purchase = Decimal::from_str(purchase_rate.as_str());
    let redemption = Decimal::from_str(redemption_rate.as_str());
    post_parsed_rates(state, env, info, denom, purchase, redemption)
}

} // verus!
