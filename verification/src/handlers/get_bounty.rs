//! The read-only query surface.

use vstd::prelude::*;
use crate::bounty::{bounty_copies, BountyStatus};
use crate::coin::Coin;
use crate::error::ContractError;
use crate::event::event_copies;
use crate::fees::{get_performance_factor, get_performance_fee};
use crate::math::Decimal;
use crate::msg::{
    BountiesResponse, BountyPerformanceResponse, BountyResponse, ConfigResponse,
    DisburseEscrowTasksResponse, EventsResponse, TriggerIdsResponse,
};
use crate::queries::{
    bounty_after, bounty_of_owner, event_after, event_of_resource, get_bounties,
    get_bounties_by_address, get_disburse_escrow_tasks, get_events_paged, get_time_trigger_ids,
    page_len, task_due, trigger_due,
};
use crate::state::{bounty_at, get_bounty, has_bounty, State};
use crate::validation::assert_page_limit_is_valid;
use crate::config::config_copies;

verus! {

/// Loads one vault.
pub fn get_bounty_handler(state: &State, bounty_id: u128) -> (r: Result<
    BountyResponse,
    ContractError,
>)
    requires
        state.wf(),
    ensures
        has_bounty(state.bounties@, bounty_id) ==> (r matches Ok(resp) && bounty_copies(
            bounty_at(state.bounties@, bounty_id),
            resp.bounty,
        )),
        !has_bounty(state.bounties@, bounty_id) ==> r == Err::<BountyResponse, ContractError>(
            ContractError::BountyNotFound { bounty_id },
        ),
{
    match get_bounty(state, bounty_id) {
        Ok(bounty) => Ok(BountyResponse { bounty }),
        Err(e) => Err(e),
    }
}

/// Loads a page of vaults in id order.
pub fn get_bounties_handler(
    state: &State,
    start_after: Option<u128>,
    limit: Option<u16>,
    reverse: Option<bool>,
) -> (r: Result<BountiesResponse, ContractError>)
    requires
        state.wf(),
    ensures
        (match limit {
            Some(l) => l as int,
            None => 30,
        }) > state.config.page_limit ==> r == Err::<BountiesResponse, ContractError>(
            ContractError::PageLimitTooLarge { max: state.config.page_limit },
        ),
        (match limit {
            Some(l) => l as int,
            None => 30,
        }) <= state.config.page_limit ==> (r matches Ok(resp) && ({
            let base = if reverse == Some(true) {
                state.bounties@.reverse()
            } else {
                state.bounties@
            };
            let f = base.filter(|b: crate::bounty::Bounty| bounty_after(b, start_after));
            let lim = match limit {
                Some(l) => l as int,
                None => state.config.default_page_limit as int,
            };
            resp.bounties@.len() == page_len(lim, f.len() as int) && (forall|k: int|
                0 <= k < resp.bounties@.len() ==> bounty_copies(f[k], #[trigger] resp.bounties@[k]))
        })),
{
    match assert_page_limit_is_valid(state, limit) {
        Ok(_) => {},
        Err(e) => {
            return Err(e);
        },
    }
    Ok(BountiesResponse { bounties: get_bounties(state, start_after, limit, reverse) })
}

/// Loads a page of one owner's vaults in id order.
pub fn get_bounties_by_address_handler(
    state: &State,
    address: String,
    status: Option<BountyStatus>,
    start_after: Option<u128>,
    limit: Option<u16>,
) -> (r: Result<BountiesResponse, ContractError>)
    requires
        state.wf(),
    ensures
        (match limit {
            Some(l) => l as int,
            None => 30,
        }) > state.config.page_limit ==> r == Err::<BountiesResponse, ContractError>(
            ContractError::PageLimitTooLarge { max: state.config.page_limit },
        ),
        (match limit {
            Some(l) => l as int,
            None => 30,
        }) <= state.config.page_limit ==> (r matches Ok(resp) && ({
            let f = state.bounties@.filter(
                |b: crate::bounty::Bounty| bounty_of_owner(b, address@, status) && bounty_after(
                    b,
                    start_after,
                ),
            );
            let lim = match limit {
                Some(l) => l as int,
                None => state.config.default_page_limit as int,
            };
            resp.bounties@.len() == page_len(lim, f.len() as int) && (forall|k: int|
                0 <= k < resp.bounties@.len() ==> bounty_copies(f[k], #[trigger] resp.bounties@[k]))
        })),
{
    match assert_page_limit_is_valid(state, limit) {
        Ok(_) => {},
        Err(e) => {
            return Err(e);
        },
    }
    Ok(
        BountiesResponse {
            bounties: get_bounties_by_address(state, address, status, start_after, limit),
        },
    )
}

/// Computes one vault's performance fee and factor at the sampled price.
pub fn get_bounty_performance_handler(state: &State, bounty_id: u128, current_price: Decimal) -> (r:
    Result<BountyPerformanceResponse, ContractError>)
    requires
        state.wf(),
        current_price.atomics > 0,
    ensures
        !has_bounty(state.bounties@, bounty_id) ==> r == Err::<
            BountyPerformanceResponse,
            ContractError,
        >(ContractError::BountyNotFound { bounty_id }),
        has_bounty(state.bounties@, bounty_id) && bounty_at(
            state.bounties@,
            bounty_id,
        ).performance_assessment_strategy is None ==> r == Err::<
            BountyPerformanceResponse,
            ContractError,
        >(ContractError::NoPerformanceStrategy { bounty_id }),
        (has_bounty(state.bounties@, bounty_id) && bounty_at(
            state.bounties@,
            bounty_id,
        ).performance_assessment_strategy is Some) ==> ({
            let b = bounty_at(state.bounties@, bounty_id);
            let st = b.performance_assessment_strategy->0;
            let p = current_price.atomics as int;
            let ratio = crate::math::ratio_floor(
                crate::fees::actual_total_spec(b, p),
                crate::math::DECIMAL_FRACTIONAL as int,
                crate::fees::std_total_spec(b, st, p),
            );
            if !crate::fees::performance_values_fit(b, st, p) {
                r == Err::<BountyPerformanceResponse, ContractError>(
                    ContractError::Math { error: crate::math::MathError::Overflow },
                )
            } else if crate::fees::std_total_spec(b, st, p) == 0 {
                r == Err::<BountyPerformanceResponse, ContractError>(
                    ContractError::Math { error: crate::math::MathError::DivideByZero },
                )
            } else if ratio > u128::MAX {
                r == Err::<BountyPerformanceResponse, ContractError>(
                    ContractError::Math { error: crate::math::MathError::Overflow },
                )
            } else {
                r == Ok::<BountyPerformanceResponse, ContractError>(
                    BountyPerformanceResponse {
                        fee: Coin {
                            denom: b.target_denom,
                            amount: crate::fees::performance_fee_spec(b, p) as u128,
                        },
                        factor: Decimal { atomics: ratio as u128 },
                    },
                )
            }
        }),
{
    let bounty = match get_bounty(state, bounty_id) {
        Ok(b) => b,
        Err(e) => {
            return Err(e);
        },
    };
    if bounty.performance_assessment_strategy.is_none() {
        return Err(ContractError::NoPerformanceStrategy { bounty_id });
    }
    proof {
        lemma_perf_congruent(bounty_at(state.bounties@, bounty_id), bounty, current_price);
    }
    let fee = match get_performance_fee(&bounty, current_price) {
        Ok(f) => f,
        Err(e) => {
            return Err(e);
        },
    };
    let factor = match get_performance_factor(&bounty, current_price) {
        Ok(f) => f,
        Err(e) => {
            return Err(e);
        },
    };
    Ok(BountyPerformanceResponse { fee, factor })
}

/// Two vaults that hold the same values perform alike.
proof fn lemma_perf_congruent(a: crate::bounty::Bounty, b: crate::bounty::Bounty, price: Decimal)
    requires
        bounty_copies(a, b),
    ensures
        crate::fees::performance_fee_spec(a, price.atomics as int)
            == crate::fees::performance_fee_spec(b, price.atomics as int),
        crate::fees::actual_total_spec(a, price.atomics as int)
            == crate::fees::actual_total_spec(b, price.atomics as int),
        a.performance_assessment_strategy is Some ==> crate::fees::std_total_spec(
            a,
            a.performance_assessment_strategy->0,
            price.atomics as int,
        ) == crate::fees::std_total_spec(
            b,
            b.performance_assessment_strategy->0,
            price.atomics as int,
        ),
        a.performance_assessment_strategy is Some ==> crate::fees::performance_values_fit(
            a,
            a.performance_assessment_strategy->0,
            price.atomics as int,
        ) == crate::fees::performance_values_fit(
            b,
            b.performance_assessment_strategy->0,
            price.atomics as int,
        ),
{
}

/// Loads a page of the event log in id order.
pub fn get_events_handler(
    state: &State,
    start_after: Option<u64>,
    limit: Option<u16>,
    reverse: Option<bool>,
) -> (r: Result<EventsResponse, ContractError>)
    requires
        state.wf(),
    ensures
        (match limit {
            Some(l) => l as int,
            None => 30,
        }) > state.config.page_limit ==> r == Err::<EventsResponse, ContractError>(
            ContractError::PageLimitTooLarge { max: state.config.page_limit },
        ),
        (match limit {
            Some(l) => l as int,
            None => 30,
        }) <= state.config.page_limit ==> (r matches Ok(resp) && ({
            let base = if reverse == Some(true) {
                state.events@.reverse()
            } else {
                state.events@
            };
            let f = base.filter(|e: crate::event::Event| event_after(e, start_after));
            let lim = match limit {
                Some(l) => l as int,
                None => state.config.default_page_limit as int,
            };
            resp.events@.len() == page_len(lim, f.len() as int) && (forall|k: int|
                0 <= k < resp.events@.len() ==> event_copies(f[k], #[trigger] resp.events@[k]))
        })),
{
    match assert_page_limit_is_valid(state, limit) {
        Ok(_) => {},
        Err(e) => {
            return Err(e);
        },
    }
    let events = get_events_paged(state, None, start_after, limit, reverse);
    proof {
        lemma_no_resource_filter(state.events@, start_after);
        lemma_no_resource_filter(state.events@.reverse(), start_after);
    }
    Ok(EventsResponse { events })
}

/// Without a resource filter the two event predicates agree.
proof fn lemma_no_resource_filter(s: Seq<crate::event::Event>, start_after: Option<u64>)
    ensures
        s.filter(
            |e: crate::event::Event| event_of_resource(e, None) && event_after(e, start_after),
        ) == s.filter(|e: crate::event::Event| event_after(e, start_after)),
    decreases s.len(),
{
    reveal(Seq::filter);
    if s.len() > 0 {
        lemma_no_resource_filter(s.drop_last(), start_after);
    }
}

/// Loads a page of one vault's events in id order.
pub fn get_events_by_resource_id_handler(
    state: &State,
    resource_id: u128,
    start_after: Option<u64>,
    limit: Option<u16>,
    reverse: Option<bool>,
) -> (r: Result<EventsResponse, ContractError>)
    requires
        state.wf(),
    ensures
        (match limit {
            Some(l) => l as int,
            None => 30,
        }) > state.config.page_limit ==> r == Err::<EventsResponse, ContractError>(
            ContractError::PageLimitTooLarge { max: state.config.page_limit },
        ),
        (match limit {
            Some(l) => l as int,
            None => 30,
        }) <= state.config.page_limit ==> (r matches Ok(resp) && ({
            let base = if reverse == Some(true) {
                state.events@.reverse()
            } else {
                state.events@
            };
            let f = base.filter(
                |e: crate::event::Event| event_of_resource(e, Some(resource_id)) && event_after(
                    e,
                    start_after,
                ),
            );
            let lim = match limit {
                Some(l) => l as int,
                None => state.config.default_page_limit as int,
            };
            resp.events@.len() == page_len(lim, f.len() as int) && (forall|k: int|
                0 <= k < resp.events@.len() ==> event_copies(f[k], #[trigger] resp.events@[k]))
        })),
{
    match assert_page_limit_is_valid(state, limit) {
        Ok(_) => {},
        Err(e) => {
            return Err(e);
        },
    }
    Ok(
        EventsResponse {
            events: get_events_paged(state, Some(resource_id), start_after, limit, reverse),
        },
    )
}

/// Loads the configuration.
pub fn get_config_handler(state: &State) -> (r: Result<ConfigResponse, ContractError>)
    ensures
        r matches Ok(resp) && config_copies(state.config, resp.config),
{
    Ok(ConfigResponse { config: state.config.clone() })
}

/// The vaults whose time triggers have come due.
pub fn get_time_trigger_ids_handler(state: &State, now: u64, limit: Option<u16>) -> (r: Result<
    TriggerIdsResponse,
    ContractError,
>)
    requires
        state.wf(),
    ensures
        r matches Ok(resp) && ({
            let f = state.bounties@.filter(|b: crate::bounty::Bounty| trigger_due(b, now));
            let lim = match limit {
                Some(l) => l as int,
                None => state.config.default_page_limit as int,
            };
            resp.trigger_ids@.len() == page_len(lim, f.len() as int) && (forall|k: int|
                0 <= k < resp.trigger_ids@.len() ==> #[trigger] resp.trigger_ids@[k] == f[k].id)
        }),
{
    Ok(TriggerIdsResponse { trigger_ids: get_time_trigger_ids(state, now, limit) })
}

/// The vaults whose escrow tasks have come due.
pub fn get_disburse_escrow_tasks_handler(state: &State, now: u64, limit: Option<u16>) -> (r: Result<
    DisburseEscrowTasksResponse,
    ContractError,
>)
    requires
        state.wf(),
    ensures
        r matches Ok(resp) && ({
            let f = state.disburse_escrow_tasks@.filter(
                |t: crate::state::DisburseEscrowTask| task_due(t, now),
            );
            let lim = match limit {
                Some(l) => l as int,
                None => state.config.default_page_limit as int,
            };
            resp.bounty_ids@.len() == page_len(lim, f.len() as int) && (forall|k: int|
                0 <= k < resp.bounty_ids@.len() ==> #[trigger] resp.bounty_ids@[k]
                    == f[k].bounty_id)
        }),
{
    Ok(
        DisburseEscrowTasksResponse {
            bounty_ids: get_disburse_escrow_tasks(state, now, limit),
        },
    )
}

} // verus!
