//! Creating a vault.

use vstd::prelude::*;
use crate::bounty::{Bounty, BountyBuilder, BountyStatus};
use crate::coin::Coin;
use crate::destination::{clone_destinations, Destination};
use crate::error::ContractError;
use crate::event::{BlockInfo, Event, EventBuilder, EventData};
use crate::math::{Decimal, DECIMAL_FRACTIONAL, MathError};
use crate::msg::MessageInfo;
use crate::msgs::Response;
use crate::state::{create_event, save_bounty, save_trigger, State};
use crate::time::{interval_valid_spec, TimeInterval};
use crate::trigger::{Trigger, TriggerConfiguration};
use crate::validation::{allocation_total, MAX_DESTINATIONS, MAX_LABEL_LENGTH};

verus! {

/// The destination list a fresh vault ends with: the given one, or the owner
/// alone when the given list is empty.
pub open spec fn create_dests_view(owner: String, destinations: Vec<Destination>) -> Seq<
    Destination,
> {
    if destinations@.len() == 0 {
        seq![
            Destination {
                address: owner,
                allocation: Decimal { atomics: DECIMAL_FRACTIONAL },
                msg: None,
            },
        ]
    } else {
        destinations@
    }
}

/// Why a creation is rejected, in the order the checks run.
pub open spec fn create_checks(
    s: State,
    info: MessageInfo,
    owner: String,
    label: Option<String>,
    destinations: Vec<Destination>,
    slippage_tolerance: Option<Decimal>,
    swap_amount: u128,
    time_interval: TimeInterval,
    target_start_time_utc_seconds: Option<u64>,
    now: u64,
) -> Option<ContractError> {
    let nd = create_dests_view(owner, destinations);
    if s.config.paused {
        Some(ContractError::Paused)
    } else if info.funds@.len() != 1 {
        Some(ContractError::FundsCountWrong { count: info.funds@.len() as u64 })
    } else if swap_amount == 0 {
        Some(ContractError::ZeroSwapAmount)
    } else if nd.len() > MAX_DESTINATIONS {
        Some(ContractError::TooManyDestinations)
    } else if exists|i: int|
        0 <= i < nd.len() && (#[trigger] nd[i]).allocation.atomics == 0 {
        Some(ContractError::ZeroAllocation)
    } else if allocation_total(nd) != DECIMAL_FRACTIONAL {
        Some(ContractError::AllocationsNotOne)
    } else if !interval_valid_spec(time_interval) {
        Some(ContractError::IntervalTooSmall)
    } else if info.funds@[0].amount < swap_amount {
        Some(
            ContractError::SwapAmountExceedsBalance {
                swap_amount,
                balance: info.funds@[0].amount,
            },
        )
    } else if match target_start_time_utc_seconds {
        Some(t) => t < now,
        None => false,
    } {
        Some(ContractError::StartTimeInPast)
    } else if match label {
        Some(l) => l@.len() > MAX_LABEL_LENGTH,
        None => false,
    } {
        Some(ContractError::LabelTooLong)
    } else if match slippage_tolerance {
        Some(st) => st.atomics > DECIMAL_FRACTIONAL,
        None => false,
    } {
        Some(ContractError::SlippageToleranceTooHigh)
    } else {
        None
    }
}

/// Whether `nb` is the vault a creation lays down: funded with what was
/// sent, scheduled if its start lies ahead, and owning a fresh time trigger
/// at its start (or due at once without one).
pub open spec fn created_bounty_matches(
    s: State,
    info: MessageInfo,
    owner: String,
    label: Option<String>,
    destinations: Vec<Destination>,
    target_denom: String,
    route: Option<String>,
    slippage_tolerance: Option<Decimal>,
    minimum_receive_amount: Option<u128>,
    swap_amount: u128,
    time_interval: TimeInterval,
    target_start_time_utc_seconds: Option<u64>,
    now: u64,
    nb: Bounty,
) -> bool {
    &&& nb.id == s.bounty_counter
    &&& nb.created_at == now
    &&& nb.started_at is None
    &&& nb.owner == owner
    &&& nb.label == label
    &&& nb.destinations@ == create_dests_view(owner, destinations)
    &&& nb.status == (if match target_start_time_utc_seconds {
        Some(t) => t > now,
        None => false,
    } {
        BountyStatus::Scheduled
    } else {
        BountyStatus::Active
    })
    &&& nb.balance == info.funds@[0]
    &&& nb.target_denom == target_denom
    &&& nb.route == route
    &&& nb.swap_amount == swap_amount
    &&& nb.slippage_tolerance == (match slippage_tolerance {
        Some(st) => st,
        None => s.config.default_slippage_tolerance,
    })
    &&& nb.minimum_receive_amount == minimum_receive_amount
    &&& nb.time_interval == time_interval
    &&& nb.escrow_level.atomics == 0
    &&& nb.deposited_amount == info.funds@[0]
    &&& nb.swapped_amount.denom@ == info.funds@[0].denom@ && nb.swapped_amount.amount == 0
    &&& nb.received_amount.denom@ == target_denom@ && nb.received_amount.amount == 0
    &&& nb.escrowed_amount.denom@ == target_denom@ && nb.escrowed_amount.amount == 0
    &&& nb.performance_assessment_strategy is None
    &&& nb.swap_adjustment_strategy is None
    &&& nb.trigger == Some(
        TriggerConfiguration::Time {
            target_time: (match target_start_time_utc_seconds {
                Some(t) => t,
                None => now,
            }),
        },
    )
}

/// Creates a vault from the sent funds: validates its shape, assigns the
/// next id, lays down its first time trigger at the start time (or due at
/// once), and records the deposit.
pub fn create_bounty_handler(
    state: &mut State,
    block: BlockInfo,
    info: &MessageInfo,
    owner: String,
    label: Option<String>,
    destinations: Vec<Destination>,
    target_denom: String,
    route: Option<String>,
    slippage_tolerance: Option<Decimal>,
    minimum_receive_amount: Option<u128>,
    swap_amount: u128,
    time_interval: TimeInterval,
    target_start_time_utc_seconds: Option<u64>,
) -> (r: Result<Response, ContractError>)
    requires
        old(state).wf(),
        old(state).events@.len() < u64::MAX,
        old(state).bounty_counter < u128::MAX,
    ensures
        final(state).wf(),
        match create_checks(
            *old(state),
            *info,
            owner,
            label,
            destinations,
            slippage_tolerance,
            swap_amount,
            time_interval,
            target_start_time_utc_seconds,
            block.time,
        ) {
            Some(e) => r == Err::<Response, ContractError>(e) && *final(state) == *old(state),
            None => {
                &&& r matches Ok(resp) && resp.messages@.len() == 0
                &&& final(state).bounty_counter == old(state).bounty_counter + 1
                &&& final(state).bounties@.len() == old(state).bounties@.len() + 1
                &&& final(state).bounties@.subrange(0, old(state).bounties@.len() as int) == old(
                    state,
                ).bounties@
                &&& created_bounty_matches(
                    *old(state),
                    *info,
                    owner,
                    label,
                    destinations,
                    target_denom,
                    route,
                    slippage_tolerance,
                    minimum_receive_amount,
                    swap_amount,
                    time_interval,
                    target_start_time_utc_seconds,
                    block.time,
                    final(state).bounties@.last(),
                )
                &&& final(state).events@ == old(state).events@.push(
                    Event {
                        id: (old(state).events@.len() + 1) as u64,
                        resource_id: old(state).bounty_counter,
                        timestamp: block.time,
                        block_height: block.height,
                        data: EventData::BountyFundsDeposited { amount: info.funds@[0] },
                    },
                )
                &&& final(state).config == old(state).config
                &&& final(state).disburse_escrow_tasks == old(state).disburse_escrow_tasks
                &&& final(state).swap_cache == old(state).swap_cache
                &&& final(state).bounty_id_cache == old(state).bounty_id_cache
                &&& final(state).post_action_queues == old(state).post_action_queues
            },
        },
{
    if state.config.paused {
        return Err(ContractError::Paused);
    }
    if info.funds.len() != 1 {
        let n = info.funds.len();
        return Err(ContractError::FundsCountWrong { count: n as u64 });
    }
    if swap_amount == 0 {
        return Err(ContractError::ZeroSwapAmount);
    }
    let mut effective: Vec<Destination> = clone_destinations(&destinations);
    if effective.len() == 0 {
        effective.push(
            Destination { address: owner.clone(), allocation: Decimal::percent(100), msg: None },
        );
    }
    proof {
        assert(effective@ =~= create_dests_view(owner, destinations));
    }
    match crate::validation::assert_destinations_limit_is_not_breached(&effective) {
        Ok(_) => {},
        Err(e) => {
            return Err(e);
        },
    }
    match crate::validation::assert_no_destination_allocations_are_zero(&effective) {
        Ok(_) => {},
        Err(e) => {
            return Err(e);
        },
    }
    match crate::validation::assert_destination_allocations_add_up_to_one(&effective) {
        Ok(_) => {},
        Err(e) => {
            return Err(e);
        },
    }
    match crate::time::assert_time_interval_is_valid(&time_interval) {
        Ok(_) => {},
        Err(e) => {
            return Err(e);
        },
    }
    match crate::validation::assert_swap_amount_is_less_than_or_equal_to_balance(
        swap_amount,
        &info.funds[0],
    ) {
        Ok(_) => {},
        Err(e) => {
            return Err(e);
        },
    }
    match target_start_time_utc_seconds {
        Some(t) => {
            match crate::validation::assert_target_start_time_is_in_future(block.time, t) {
                Ok(_) => {},
                Err(e) => {
                    return Err(e);
                },
            }
        },
        None => {},
    }
    match &label {
        Some(l) => {
            match crate::validation::assert_label_is_no_longer_than_100_characters(l) {
                Ok(_) => {},
                Err(e) => {
                    return Err(e);
                },
            }
        },
        None => {},
    }
    match slippage_tolerance {
        Some(st) => {
            match crate::validation::assert_slippage_tolerance_is_less_than_or_equal_to_one(st) {
                Ok(_) => {},
                Err(e) => {
                    return Err(e);
                },
            }
        },
        None => {},
    }
    let funds = info.funds[0].clone();
    let status = match target_start_time_utc_seconds {
        Some(t) => {
            if t > block.time {
                BountyStatus::Scheduled
            } else {
                BountyStatus::Active
            }
        },
        None => BountyStatus::Active,
    };
    let target_time = match target_start_time_utc_seconds {
        Some(t) => t,
        None => block.time,
    };
    let bounty_id = state.bounty_counter;
    let builder = BountyBuilder {
        created_at: block.time,
        started_at: None,
        owner,
        label,
        destinations: effective,
        status,
        balance: funds.clone(),
        target_denom: target_denom.clone(),
        route,
        swap_amount,
        slippage_tolerance: match slippage_tolerance {
            Some(st) => st,
            None => state.config.default_slippage_tolerance,
        },
        minimum_receive_amount,
        time_interval,
        escrow_level: Decimal::zero(),
        deposited_amount: funds.clone(),
        swapped_amount: Coin { denom: funds.denom.clone(), amount: 0 },
        received_amount: Coin { denom: target_denom.clone(), amount: 0 },
        escrowed_amount: Coin { denom: target_denom, amount: 0 },
        performance_assessment_strategy: None,
        swap_adjustment_strategy: None,
    };
    let _saved = save_bounty(state, builder);
    proof {
        assert(state.bounties@[state.bounties@.len() - 1].id == bounty_id);
        assert(crate::state::has_bounty(state.bounties@, bounty_id));
    }
    match save_trigger(
        state,
        Trigger { bounty_id, configuration: TriggerConfiguration::Time { target_time } },
    ) {
        Ok(_) => {},
        Err(e) => {
            return Err(e);
        },
    }
    match create_event(
        state,
        EventBuilder::new(
            bounty_id,
            block,
            EventData::BountyFundsDeposited { amount: info.funds[0].clone() },
        ),
    ) {
        Ok(_) => {},
        Err(e) => {
            return Err(e);
        },
    }
    proof {
        assert(state.bounties@.subrange(0, old(state).bounties@.len() as int) =~= old(
            state,
        ).bounties@);
    }
    Ok(Response::new())
}

} // verus!
