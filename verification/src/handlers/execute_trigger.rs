//! Beginning an execution: turning a due trigger into an issued swap call.
//!
//! The trigger is removed before the call goes out, so no second execution
//! can begin while one is outstanding; what the resume needs is cached.

use vstd::prelude::*;
use crate::bounty::{Bounty, BountyStatus};
use crate::coin::Coin;
use crate::error::ContractError;
use crate::event::{BlockInfo, Event, EventBuilder, EventData, ExecutionSkippedReason};
use crate::math::{Decimal, DECIMAL_FRACTIONAL};
use crate::msgs::{OutMsg, OutMsgBody, ReplyOn, Response, AFTER_SWAP_REPLY_ID};
use crate::state::{
    bounty_at, bounty_index, create_event, find_bounty_index, has_bounty, State, SwapCache,
};
use crate::time::next_from_previous_spec;
use crate::trigger::TriggerConfiguration;

verus! {

/// Why an execution attempt is rejected, in the order the checks run. A
/// price trigger is not executable here: it completes through the venue's
/// own callback.
pub open spec fn execute_checks(s: State, trigger_id: u128, now: u64) -> Option<ContractError> {
    if s.config.paused {
        Some(ContractError::Paused)
    } else if !has_bounty(s.bounties@, trigger_id) {
        Some(ContractError::BountyNotFound { bounty_id: trigger_id })
    } else {
        let b = bounty_at(s.bounties@, trigger_id);
        if b.status == BountyStatus::Cancelled {
            Some(ContractError::BountyCancelled)
        } else {
            match b.trigger {
                None => Some(ContractError::TriggerMissing { bounty_id: trigger_id }),
                Some(TriggerConfiguration::Time { target_time }) => {
                    if now < target_time {
                        Some(ContractError::TriggerNotDue)
                    } else {
                        None
                    }
                },
                Some(TriggerConfiguration::Price { .. }) => Some(ContractError::TriggerNotDue),
            }
        }
    }
}

/// The target time of a vault's time trigger; zero where there is none.
pub open spec fn time_trigger_target(t: Option<TriggerConfiguration>) -> u64 {
    match t {
        Some(TriggerConfiguration::Time { target_time }) => target_time,
        _ => 0,
    }
}

/// Whether a swap at `price` could not meet the vault's minimum receive
/// amount.
pub open spec fn threshold_exceeded_spec(b: Bounty, price: Decimal) -> bool {
    match b.minimum_receive_amount {
        None => false,
        Some(min) => b.swap_amount * DECIMAL_FRACTIONAL < min * price.atomics,
    }
}

/// A scheduled vault is activated the moment it first executes.
pub open spec fn activated_status(s: BountyStatus) -> BountyStatus {
    if s == BountyStatus::Scheduled {
        BountyStatus::Active
    } else {
        s
    }
}

/// The swap call issued for the vault: its next tranche, bounded by its
/// slippage tolerance and minimum receive amount, monitored so the outcome
/// comes back.
pub open spec fn swap_msg_spec(b: Bounty, exchange: String) -> OutMsg {
    OutMsg {
        id: AFTER_SWAP_REPLY_ID,
        reply_on: ReplyOn::Always,
        body: OutMsgBody::Swap {
            contract_addr: exchange,
            swap_amount: Coin {
                denom: b.balance.denom,
                amount: (if b.swap_amount < b.balance.amount {
                    b.swap_amount
                } else {
                    b.balance.amount
                }),
            },
            target_denom: b.target_denom,
            slippage_tolerance: b.slippage_tolerance,
            minimum_receive_amount: b.minimum_receive_amount,
            route: b.route,
        },
    }
}

/// Runs a due time trigger: removes the trigger record, and either issues
/// the swap call (caching what its resume will need) or, if the sampled
/// price cannot meet the minimum receive amount, records a skipped execution
/// and lays the next trigger one interval past the previous target.
pub fn execute_trigger_handler(
    state: &mut State,
    block: BlockInfo,
    trigger_id: u128,
    belief_price: Decimal,
) -> (r: Result<Response, ContractError>)
    requires
        old(state).wf(),
        old(state).events@.len() < u64::MAX,
        belief_price.atomics > 0,
    ensures
        final(state).wf(),
        match execute_checks(*old(state), trigger_id, block.time) {
            Some(e) => r == Err::<Response, ContractError>(e) && *final(state) == *old(state),
            None => {
                let b = bounty_at(old(state).bounties@, trigger_id);
                let idx = bounty_index(old(state).bounties@, trigger_id);
                let target = time_trigger_target(b.trigger);
                &&& (if threshold_exceeded_spec(b, belief_price) {
                    &&& r matches Ok(resp) && resp.messages@.len() == 0
                    &&& final(state).bounties@ == old(state).bounties@.update(
                        idx,
                        (Bounty {
                            status: activated_status(b.status),
                            trigger: Some(
                                TriggerConfiguration::Time {
                                    target_time: next_from_previous_spec(
                                        target as int,
                                        b.time_interval,
                                    ) as u64,
                                },
                            ),
                            ..b
                        }),
                    )
                    &&& final(state).events@ == old(state).events@.push(
                        Event {
                            id: (old(state).events@.len() + 1) as u64,
                            resource_id: trigger_id,
                            timestamp: block.time,
                            block_height: block.height,
                            data: EventData::BountyExecutionSkipped {
                                reason: ExecutionSkippedReason::PriceThresholdExceeded {
                                    price: belief_price,
                                },
                            },
                        },
                    )
                    &&& final(state).swap_cache == old(state).swap_cache
                } else {
                    &&& r matches Ok(resp) && resp.messages@ == seq![
                        swap_msg_spec(b, old(state).config.exchange_contract_address),
                    ]
                    &&& final(state).bounties@ == old(state).bounties@.update(
                        idx,
                        (Bounty { status: activated_status(b.status), trigger: None, ..b }),
                    )
                    &&& final(state).events@ == old(state).events@.push(
                        Event {
                            id: (old(state).events@.len() + 1) as u64,
                            resource_id: trigger_id,
                            timestamp: block.time,
                            block_height: block.height,
                            data: EventData::BountyExecutionTriggered {
                                base_denom: b.target_denom,
                                quote_denom: b.balance.denom,
                                asset_price: belief_price,
                            },
                        },
                    )
                    &&& final(state).swap_cache == Some(
                        SwapCache {
                            bounty_id: trigger_id,
                            trigger: TriggerConfiguration::Time { target_time: target },
                        },
                    )
                })
                &&& final(state).config == old(state).config
                &&& final(state).bounty_counter == old(state).bounty_counter
                &&& final(state).disburse_escrow_tasks == old(state).disburse_escrow_tasks
                &&& final(state).bounty_id_cache == old(state).bounty_id_cache
                &&& final(state).post_action_queues == old(state).post_action_queues
            },
        },
{
    if state.config.paused {
        return Err(ContractError::Paused);
    }
    let idx = match find_bounty_index(state, trigger_id) {
        Some(i) => i,
        None => {
            return Err(ContractError::BountyNotFound { bounty_id: trigger_id });
        },
    };
    if state.bounties[idx].status == BountyStatus::Cancelled {
        return Err(ContractError::BountyCancelled);
    }
    let target_time = match state.bounties[idx].trigger {
        None => {
            return Err(ContractError::TriggerMissing { bounty_id: trigger_id });
        },
        Some(TriggerConfiguration::Time { target_time }) => {
            if block.time < target_time {
                return Err(ContractError::TriggerNotDue);
            }
            target_time
        },
        Some(TriggerConfiguration::Price { .. }) => {
            return Err(ContractError::TriggerNotDue);
        },
    };
    let exceeded = match state.bounties[idx].price_threshold_exceeded(belief_price) {
        Ok(v) => v,
        Err(e) => {
            return Err(e);
        },
    };
    let ghost before = state.bounties@;
    if exceeded {
        if state.bounties[idx].status == BountyStatus::Scheduled {
            state.bounties[idx].status = BountyStatus::Active;
        }
        let iv = state.bounties[idx].time_interval;
        let next = crate::time::next_target_from_previous(target_time, &iv);
        state.bounties[idx].trigger = Some(TriggerConfiguration::Time { target_time: next });
        proof {
            assert(state.bounties@ =~= before.update(
                idx as int,
                (Bounty {
                    status: activated_status(before[idx as int].status),
                    trigger: Some(
                        TriggerConfiguration::Time {
                            target_time: next_from_previous_spec(
                                target_time as int,
                                before[idx as int].time_interval,
                            ) as u64,
                        },
                    ),
                    ..before[idx as int]
                }),
            ));
            assert forall|a: int, b: int|
                0 <= a < b < state.bounties@.len() implies state.bounties@[a].id
                < state.bounties@[b].id by {
                assert(before[a].id < before[b].id);
            }
        }
        match create_event(
            state,
            EventBuilder::new(
                trigger_id,
                block,
                EventData::BountyExecutionSkipped {
                    reason: ExecutionSkippedReason::PriceThresholdExceeded { price: belief_price },
                },
            ),
        ) {
            Ok(_) => {},
            Err(e) => {
                return Err(e);
            },
        }
        Ok(Response::new())
    } else {
        if state.bounties[idx].status == BountyStatus::Scheduled {
            state.bounties[idx].status = BountyStatus::Active;
        }
        state.bounties[idx].trigger = None;
        state.swap_cache = Some(
            SwapCache {
                bounty_id: trigger_id,
                trigger: TriggerConfiguration::Time { target_time },
            },
        );
        proof {
            assert(state.bounties@ =~= before.update(
                idx as int,
                (Bounty {
                    status: activated_status(before[idx as int].status),
                    trigger: None,
                    ..before[idx as int]
                }),
            ));
            assert forall|a: int, b: int|
                0 <= a < b < state.bounties@.len() implies state.bounties@[a].id
                < state.bounties@[b].id by {
                assert(before[a].id < before[b].id);
            }
        }
        match create_event(
            state,
            EventBuilder::new(
                trigger_id,
                block,
                EventData::BountyExecutionTriggered {
                    base_denom: state.bounties[idx].target_denom.clone(),
                    quote_denom: state.bounties[idx].balance.denom.clone(),
                    asset_price: belief_price,
                },
            ),
        ) {
            Ok(_) => {},
            Err(e) => {
                return Err(e);
            },
        }
        let swap_amount = state.bounties[idx].get_swap_amount();
        let msg = OutMsg::reply_always(
            OutMsgBody::Swap {
                contract_addr: state.config.exchange_contract_address.clone(),
                swap_amount,
                target_denom: state.bounties[idx].target_denom.clone(),
                slippage_tolerance: state.bounties[idx].slippage_tolerance,
                minimum_receive_amount: state.bounties[idx].minimum_receive_amount,
                route: match &state.bounties[idx].route {
                    Some(r_) => Some(r_.clone()),
                    None => None,
                },
            },
            AFTER_SWAP_REPLY_ID,
        );
        let mut messages: Vec<OutMsg> = Vec::new();
        messages.push(msg);
        proof {
            assert(messages@ =~= seq![
                swap_msg_spec(
                    bounty_at(old(state).bounties@, trigger_id),
                    old(state).config.exchange_contract_address,
                ),
            ]);
        }
        Ok(Response { messages })
    }
}

} // verus!
