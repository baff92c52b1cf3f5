//! Resuming an execution when the swap call's outcome arrives.
//!
//! The swap and this resume are separate requests: the cache written when
//! the call went out is read fresh and consumed here. A fill settles the
//! proceeds; a failure is classified and recorded. Either way the next time
//! trigger is laid one interval past the previous target, so the schedule
//! neither drifts nor skips.

use vstd::prelude::*;
use crate::bounty::{Bounty, BountyStatus};
use crate::coin::Coin;
use crate::disbursement::{
    disbursement_entries, disbursement_msgs, get_disbursement_messages, shares_ok,
};
use crate::error::ContractError;
use crate::event::{BlockInfo, Event, EventBuilder, EventData, ExecutionSkippedReason};
use crate::fees::{collector_shares_ok, fee_msgs, get_fee_messages};
use crate::fmt::{contains_seq, str_contains};
use crate::math::{
    lemma_ratio_floor_le_self, mul_floor_spec, mul_ratio_u128, MathError, DECIMAL_FRACTIONAL,
};
use crate::msgs::{OutMsg, Response};
use crate::state::{
    bounty_at, bounty_index, create_event, find_bounty_index, has_bounty, queue_entries, State,
};
use crate::time::next_from_previous_spec;
use crate::trigger::TriggerConfiguration;

verus! {

/// The venue's error text names a violated slippage bound.
pub const ERROR_SWAP_SLIPPAGE: &'static str = "Max spread exceeded";

/// The venue's error text names missing funds at the venue.
pub const ERROR_SWAP_INSUFFICIENT_FUNDS: &'static str = "Insufficient funds";

/// What the venue reported back for an issued swap.
#[derive(Debug, PartialEq, Eq)]
pub enum SwapResult {
    /// The swap filled: `sent` of the source denomination went out and
    /// `received` of the target denomination came back.
    Filled { sent: u128, received: u128 },
    /// The swap failed, with the venue's error text.
    Failed { error: String },
}

/// The skip reason read off the venue's error text.
pub open spec fn classify_spec(error: Seq<char>) -> ExecutionSkippedReason {
    if contains_seq(error, ERROR_SWAP_SLIPPAGE@) {
        ExecutionSkippedReason::SlippageToleranceExceeded
    } else if contains_seq(error, ERROR_SWAP_INSUFFICIENT_FUNDS@) {
        ExecutionSkippedReason::InsufficientFunds
    } else {
        ExecutionSkippedReason::UnknownFailure
    }
}

/// Classifies a venue failure from its error text alone.
pub fn classify_execution_error(error: &String) -> (r: ExecutionSkippedReason)
    ensures
        r == classify_spec(error@),
{
    if str_contains(error, ERROR_SWAP_SLIPPAGE) {
        ExecutionSkippedReason::SlippageToleranceExceeded
    } else if str_contains(error, ERROR_SWAP_INSUFFICIENT_FUNDS) {
        ExecutionSkippedReason::InsufficientFunds
    } else {
        ExecutionSkippedReason::UnknownFailure
    }
}

/// Why a resume is rejected: no call is outstanding, or its vault is gone.
pub open spec fn resume_checks(s: State) -> Option<ContractError> {
    match s.swap_cache {
        None => Some(ContractError::CacheMissing),
        Some(c) => {
            if !has_bounty(s.bounties@, c.bounty_id) {
                Some(ContractError::BountyNotFound { bounty_id: c.bounty_id })
            } else {
                None
            }
        },
    }
}

/// The automation fee on a fill: the configured fraction of the proceeds.
pub open spec fn swap_fee_spec(s: State, received: u128) -> int {
    mul_floor_spec(received as int, s.config.automation_fee_percent.atomics as int)
}

/// What of the proceeds is withheld into escrow: the vault's escrow level
/// applied to the proceeds net of the fee, and only for a vault that has a
/// performance-assessment baseline to judge the escrow against later.
pub open spec fn escrowed_part_spec(b: Bounty, after_fee: int) -> int {
    if b.performance_assessment_strategy is Some {
        mul_floor_spec(after_fee, b.escrow_level.atomics as int)
    } else {
        0
    }
}

/// What the next execution takes off the balance: the configured amount,
/// bounded by the balance.
pub open spec fn taken_spec(b: Bounty) -> int {
    if b.swap_amount < b.balance.amount {
        b.swap_amount as int
    } else {
        b.balance.amount as int
    }
}

/// The vault once a fill settles: balance down by one configured swap
/// amount, totals grown, inactive on low funds, started stamped, and the
/// next time trigger laid one interval past the previous target.
pub open spec fn settled_bounty(
    b: Bounty,
    now: u64,
    previous_target: u64,
    sent: u128,
    received: u128,
    escrowed: int,
) -> Bounty {
    let new_balance = b.balance.amount - taken_spec(b);
    Bounty {
        balance: Coin { denom: b.balance.denom, amount: new_balance as u128 },
        status: if new_balance < b.swap_amount {
            BountyStatus::Inactive
        } else {
            b.status
        },
        started_at: match b.started_at {
            Some(t) => Some(t),
            None => Some(now),
        },
        swapped_amount: Coin {
            denom: b.swapped_amount.denom,
            amount: (b.swapped_amount.amount + sent) as u128,
        },
        received_amount: Coin {
            denom: b.received_amount.denom,
            amount: (b.received_amount.amount + received) as u128,
        },
        escrowed_amount: Coin {
            denom: b.escrowed_amount.denom,
            amount: (b.escrowed_amount.amount + escrowed) as u128,
        },
        trigger: Some(
            TriggerConfiguration::Time {
                target_time: next_from_previous_spec(previous_target as int, b.time_interval)
                    as u64,
            },
        ),
        ..b
    }
}

/// The running totals a fill must fit into.
pub open spec fn settle_fits(s: State, b: Bounty, sent: u128, received: u128) -> bool {
    let fee = swap_fee_spec(s, received);
    let after_fee = received - fee;
    let escrowed = escrowed_part_spec(b, after_fee);
    let to_distribute = after_fee - escrowed;
    &&& b.swapped_amount.amount + sent <= u128::MAX
    &&& b.received_amount.amount + received <= u128::MAX
    &&& b.escrowed_amount.amount + escrowed <= u128::MAX
    &&& collector_shares_ok(s.config.fee_collectors@, fee)
    &&& shares_ok(b.destinations@, to_distribute)
}

/// Every successful execution takes exactly one configured swap amount off
/// the balance, and a balance that no longer covers one more execution
/// leaves the vault inactive.
pub proof fn lemma_settlement_decrements_balance_by_swap_amount(
    b: Bounty,
    now: u64,
    previous_target: u64,
    sent: u128,
    received: u128,
    escrowed: int,
)
    requires
        b.balance.amount >= b.swap_amount,
    ensures
        settled_bounty(b, now, previous_target, sent, received, escrowed).balance.amount
            == b.balance.amount - b.swap_amount,
        settled_bounty(b, now, previous_target, sent, received, escrowed).balance.amount
            < b.swap_amount ==> settled_bounty(
            b,
            now,
            previous_target,
            sent,
            received,
            escrowed,
        ).status == BountyStatus::Inactive,
{
}

/// Settles the outcome of an issued swap call. A fill decrements the balance
/// by the configured swap amount, withholds the fee (and, for a vault with a
/// performance-assessment baseline, the escrow fraction),
/// fans the remainder out to the destinations, and records the completed
/// execution; a failure records the classified skip. Both lay the next time
/// trigger one interval past the previous target and consume the cache.
pub fn after_fin_swap(state: &mut State, block: BlockInfo, reply: SwapResult) -> (r: Result<
    Response,
    ContractError,
>)
    requires
        old(state).wf(),
        old(state).events@.len() < u64::MAX,
        match old(state).swap_cache {
            Some(c) => c.trigger is Time,
            None => true,
        },
    ensures
        final(state).wf(),
        match resume_checks(*old(state)) {
            Some(e) => r == Err::<Response, ContractError>(e) && *final(state) == *old(state),
            None => {
                let cache = old(state).swap_cache->0;
                let b = bounty_at(old(state).bounties@, cache.bounty_id);
                let idx = bounty_index(old(state).bounties@, cache.bounty_id);
                let previous_target = crate::handlers::execute_trigger::time_trigger_target(
                    Some(cache.trigger),
                );
                match reply {
                    SwapResult::Filled { sent, received } => {
                        let fee = swap_fee_spec(*old(state), received);
                        let after_fee = received - fee;
                        let escrowed = escrowed_part_spec(b, after_fee);
                        let to_distribute = after_fee - escrowed;
                        if settle_fits(*old(state), b, sent, received) {
                            &&& r matches Ok(resp) && resp.messages@ == disbursement_msgs(
                                b.destinations@,
                                to_distribute,
                                b.target_denom,
                            ) + fee_msgs(
                                old(state).config.fee_collectors@,
                                fee,
                                b.target_denom,
                            )
                            &&& final(state).bounties@ == old(state).bounties@.update(
                                idx,
                                settled_bounty(
                                    b,
                                    block.time,
                                    previous_target,
                                    sent,
                                    received,
                                    escrowed,
                                ),
                            )
                            &&& final(state).events@ == old(state).events@.push(
                                Event {
                                    id: (old(state).events@.len() + 1) as u64,
                                    resource_id: cache.bounty_id,
                                    timestamp: block.time,
                                    block_height: block.height,
                                    data: EventData::BountyExecutionCompleted {
                                        sent: Coin { denom: b.balance.denom, amount: sent },
                                        received: Coin {
                                            denom: b.target_denom,
                                            amount: received,
                                        },
                                        fee: Coin { denom: b.target_denom, amount: fee as u128 },
                                    },
                                },
                            )
                            &&& queue_entries(
                                final(state).post_action_queues@,
                                cache.bounty_id,
                            ) == queue_entries(old(state).post_action_queues@, cache.bounty_id)
                                + disbursement_entries(
                                b.destinations@,
                                to_distribute,
                                b.target_denom,
                            )
                            &&& final(state).swap_cache is None
                            &&& final(state).bounty_id_cache == Some(cache.bounty_id)
                        } else {
                            r == Err::<Response, ContractError>(
                                ContractError::Math { error: MathError::Overflow },
                            ) && *final(state) == *old(state)
                        }
                    },
                    SwapResult::Failed { error } => {
                        &&& r matches Ok(resp) && resp.messages@.len() == 0
                        &&& final(state).bounties@ == old(state).bounties@.update(
                            idx,
                            (Bounty {
                                trigger: Some(
                                    TriggerConfiguration::Time {
                                        target_time: next_from_previous_spec(
                                            previous_target as int,
                                            b.time_interval,
                                        ) as u64,
                                    },
                                ),
                                ..b
                            }),
                        )
                        &&& final(state).events@ == old(state).events@.push(
                            Event {
                                id: (old(state).events@.len() + 1) as u64,
                                resource_id: cache.bounty_id,
                                timestamp: block.time,
                                block_height: block.height,
                                data: EventData::BountyExecutionSkipped {
                                    reason: classify_spec(error@),
                                },
                            },
                        )
                        &&& final(state).swap_cache is None
                        &&& final(state).post_action_queues == old(state).post_action_queues
                        &&& final(state).bounty_id_cache == old(state).bounty_id_cache
                    },
                }
            },
        },
        final(state).config == old(state).config,
        final(state).bounty_counter == old(state).bounty_counter,
        final(state).disburse_escrow_tasks == old(state).disburse_escrow_tasks,
{
    let cache = match state.swap_cache {
        Some(c) => c,
        None => {
            return Err(ContractError::CacheMissing);
        },
    };
    let bounty_id = cache.bounty_id;
    let previous_target = match cache.trigger {
        TriggerConfiguration::Time { target_time } => target_time,
        TriggerConfiguration::Price { .. } => {
            proof {
                assert(false);
            }
            0
        },
    };
    let idx = match find_bounty_index(state, bounty_id) {
        Some(i) => i,
        None => {
            return Err(ContractError::BountyNotFound { bounty_id });
        },
    };
    match reply {
        SwapResult::Filled { sent, received } => {
            let fee = match mul_ratio_u128(
                received,
                state.config.automation_fee_percent.atomics,
                DECIMAL_FRACTIONAL,
            ) {
                Ok(v) => v,
                Err(_) => {
                    proof {
                        lemma_ratio_floor_le_self(
                            received as int,
                            state.config.automation_fee_percent.atomics as int,
                            DECIMAL_FRACTIONAL as int,
                        );
                        assert(false);
                    }
                    0
                },
            };
            proof {
                lemma_ratio_floor_le_self(
                    received as int,
                    state.config.automation_fee_percent.atomics as int,
                    DECIMAL_FRACTIONAL as int,
                );
            }
            let after_fee = received - fee;
            let escrowed = if state.bounties[idx].performance_assessment_strategy.is_some() {
                match mul_ratio_u128(
                    after_fee,
                    state.bounties[idx].escrow_level.atomics,
                    DECIMAL_FRACTIONAL,
                ) {
                    Ok(v) => v,
                    Err(_) => {
                        proof {
                            lemma_ratio_floor_le_self(
                                after_fee as int,
                                state.bounties@[idx as int].escrow_level.atomics as int,
                                DECIMAL_FRACTIONAL as int,
                            );
                            assert(false);
                        }
                        0
                    },
                }
            } else {
                0
            };
            proof {
                lemma_ratio_floor_le_self(
                    after_fee as int,
                    state.bounties@[idx as int].escrow_level.atomics as int,
                    DECIMAL_FRACTIONAL as int,
                );
            }
            let to_distribute = after_fee - escrowed;
            let new_swapped = match state.bounties[idx].swapped_amount.amount.checked_add(sent) {
                Some(v) => v,
                None => {
                    return Err(ContractError::Math { error: MathError::Overflow });
                },
            };
            let new_received = match state.bounties[idx].received_amount.amount.checked_add(
                received,
            ) {
                Some(v) => v,
                None => {
                    return Err(ContractError::Math { error: MathError::Overflow });
                },
            };
            let new_escrowed = match state.bounties[idx].escrowed_amount.amount.checked_add(
                escrowed,
            ) {
                Some(v) => v,
                None => {
                    return Err(ContractError::Math { error: MathError::Overflow });
                },
            };
            let target_denom = state.bounties[idx].target_denom.clone();
            let mut fee_messages = match get_fee_messages(state, fee, &target_denom) {
                Ok(v) => v,
                Err(e) => {
                    return Err(e);
                },
            };
            let bounty_copy = state.bounties[idx].clone();
            let mut messages = match get_disbursement_messages(state, &bounty_copy, to_distribute) {
                Ok(v) => v,
                Err(e) => {
                    return Err(e);
                },
            };
            let ghost before = state.bounties@;
            let taken = if state.bounties[idx].swap_amount < state.bounties[idx].balance.amount {
                state.bounties[idx].swap_amount
            } else {
                state.bounties[idx].balance.amount
            };
            let new_balance = state.bounties[idx].balance.amount - taken;
            state.bounties[idx].balance.amount = new_balance;
            if new_balance < state.bounties[idx].swap_amount {
                state.bounties[idx].status = BountyStatus::Inactive;
            }
            if state.bounties[idx].started_at.is_none() {
                state.bounties[idx].started_at = Some(block.time);
            }
            state.bounties[idx].swapped_amount.amount = new_swapped;
            state.bounties[idx].received_amount.amount = new_received;
            state.bounties[idx].escrowed_amount.amount = new_escrowed;
            let iv = state.bounties[idx].time_interval;
            let next = crate::time::next_target_from_previous(previous_target, &iv);
            state.bounties[idx].trigger = Some(TriggerConfiguration::Time { target_time: next });
            proof {
                assert(state.bounties@ =~= before.update(
                    idx as int,
                    settled_bounty(
                        before[idx as int],
                        block.time,
                        previous_target,
                        sent,
                        received,
                        escrowed as int,
                    ),
                ));
                assert forall|a: int, b: int|
                    0 <= a < b < state.bounties@.len() implies state.bounties@[a].id
                    < state.bounties@[b].id by {
                    assert(before[a].id < before[b].id);
                }
            }
            state.swap_cache = None;
            state.bounty_id_cache = Some(bounty_id);
            let sent_coin = Coin { denom: bounty_copy.balance.denom, amount: sent };
            let received_coin = Coin { denom: bounty_copy.target_denom, amount: received };
            let fee_coin = Coin { denom: target_denom, amount: fee };
            match create_event(
                state,
                EventBuilder::new(
                    bounty_id,
                    block,
                    EventData::BountyExecutionCompleted {
                        sent: sent_coin,
                        received: received_coin,
                        fee: fee_coin,
                    },
                ),
            ) {
                Ok(_) => {},
                Err(e) => {
                    return Err(e);
                },
            }
            let ghost disb = messages@;
            let mut k: usize = 0;
            let fee_len = fee_messages.len();
            while k < fee_len
                invariant
                    fee_len == fee_messages@.len(),
                    k <= fee_len,
                    messages@ == disb + fee_messages@.subrange(0, k as int),
                decreases fee_len - k,
            {
                let m = fee_messages[k].clone();
                messages.push(m);
                proof {
                    assert(messages@ =~= disb + fee_messages@.subrange(0, k as int + 1));
                }
                k = k + 1;
            }
            proof {
                assert(fee_messages@.subrange(0, fee_messages@.len() as int) =~= fee_messages@);
            }
            Ok(Response { messages })
        },
        SwapResult::Failed { error } => {
            let reason = classify_execution_error(&error);
            let ghost before = state.bounties@;
            let iv = state.bounties[idx].time_interval;
            let next = crate::time::next_target_from_previous(previous_target, &iv);
            state.bounties[idx].trigger = Some(TriggerConfiguration::Time { target_time: next });
            proof {
                assert(state.bounties@ =~= before.update(
                    idx as int,
                    (Bounty {
                        trigger: Some(TriggerConfiguration::Time { target_time: next }),
                        ..before[idx as int]
                    }),
                ));
                assert forall|a: int, b: int|
                    0 <= a < b < state.bounties@.len() implies state.bounties@[a].id
                    < state.bounties@[b].id by {
                    assert(before[a].id < before[b].id);
                }
            }
            state.swap_cache = None;
            match create_event(
                state,
                EventBuilder::new(
                    bounty_id,
                    block,
                    EventData::BountyExecutionSkipped { reason },
                ),
            ) {
                Ok(_) => {},
                Err(e) => {
                    return Err(e);
                },
            }
            Ok(Response::new())
        },
    }
}

} // verus!
