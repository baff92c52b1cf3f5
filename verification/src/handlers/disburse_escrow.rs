//! Releasing a vault's escrow, net of the performance fee.

use vstd::prelude::*;
use crate::bounty::Bounty;
use crate::coin::Coin;
use crate::disbursement::{
    disbursement_entries, disbursement_msgs, get_disbursement_messages, shares_ok,
};
use crate::error::ContractError;
use crate::event::{BlockInfo, Event, EventBuilder, EventData};
use crate::fees::{
    collector_shares_ok, fee_msgs, get_fee_messages, get_performance_fee, performance_fee_spec,
    performance_values_fit,
};
use crate::math::{Decimal, MathError};
use crate::msg::MessageInfo;
use crate::msgs::{OutMsg, Response};
use crate::state::{
    bounty_at, bounty_index, create_event, delete_disburse_escrow_task, find_bounty_index,
    get_disburse_escrow_task_due_date, has_bounty, has_task, queue_entries, task_index, State,
};
use crate::validation::{assert_sender_is_executor, is_executor};

verus! {

/// Why a disbursement is rejected, in the order the checks run. A vault with
/// no escrow is not an error: the request is a no-op then.
pub open spec fn disburse_checks(s: State, info: MessageInfo, bounty_id: u128, now: u64) -> Option<
    ContractError,
> {
    if !is_executor(s.config, info.sender@) {
        Some(ContractError::Unauthorized)
    } else if !has_bounty(s.bounties@, bounty_id) {
        Some(ContractError::BountyNotFound { bounty_id })
    } else {
        let b = bounty_at(s.bounties@, bounty_id);
        if b.escrowed_amount.amount == 0 {
            None
        } else if has_task(s.disburse_escrow_tasks@, bounty_id) && now < s.disburse_escrow_tasks@[
            task_index(s.disburse_escrow_tasks@, bounty_id)
        ].due {
            Some(
                ContractError::EscrowNotDue {
                    due: s.disburse_escrow_tasks@[task_index(
                        s.disburse_escrow_tasks@,
                        bounty_id,
                    )].due,
                },
            )
        } else {
            None
        }
    }
}

/// The fee and both fan-outs fit in 128 bits.
pub open spec fn disburse_fits(s: State, b: Bounty, price: Decimal) -> bool {
    let fee = performance_fee_spec(b, price.atomics as int);
    &&& (match b.performance_assessment_strategy {
        None => true,
        Some(st) => performance_values_fit(b, st, price.atomics as int),
    })
    &&& collector_shares_ok(s.config.fee_collectors@, fee)
    &&& shares_ok(b.destinations@, b.escrowed_amount.amount - fee)
}

/// Disburses a vault's escrow: no earlier than its recorded due date, the
/// performance fee is computed at the freshly sampled price and routed to
/// the fee collectors, the remainder fans out to the destinations, the
/// escrow field is zeroed and its task deleted. With no escrow held the
/// request does nothing at all, and a second disbursement in a row is
/// exactly that.
pub fn disburse_escrow_handler(
    state: &mut State,
    block: BlockInfo,
    info: &MessageInfo,
    bounty_id: u128,
    current_price: Decimal,
) -> (r: Result<Response, ContractError>)
    requires
        old(state).wf(),
        old(state).events@.len() < u64::MAX,
        current_price.atomics > 0,
    ensures
        final(state).wf(),
        match disburse_checks(*old(state), *info, bounty_id, block.time) {
            Some(e) => r == Err::<Response, ContractError>(e) && *final(state) == *old(state),
            None => {
                let b = bounty_at(old(state).bounties@, bounty_id);
                let idx = bounty_index(old(state).bounties@, bounty_id);
                if b.escrowed_amount.amount == 0 {
                    r matches Ok(resp) && resp.messages@.len() == 0 && *final(state) == *old(state)
                } else if disburse_fits(*old(state), b, current_price) {
                    let fee = performance_fee_spec(b, current_price.atomics as int);
                    let disburse_amount = b.escrowed_amount.amount - fee;
                    &&& r matches Ok(resp) && resp.messages@ == disbursement_msgs(
                        b.destinations@,
                        disburse_amount,
                        b.target_denom,
                    ) + fee_msgs(
                        old(state).config.fee_collectors@,
                        fee,
                        b.target_denom,
                    )
                    &&& final(state).bounties@ == old(state).bounties@.update(
                        idx,
                        (Bounty {
                            escrowed_amount: Coin { denom: b.escrowed_amount.denom, amount: 0 },
                            ..b
                        }),
                    )
                    &&& final(state).events@ == old(state).events@.push(
                        Event {
                            id: (old(state).events@.len() + 1) as u64,
                            resource_id: bounty_id,
                            timestamp: block.time,
                            block_height: block.height,
                            data: EventData::BountyEscrowDisbursed {
                                amount_disbursed: Coin {
                                    denom: b.target_denom,
                                    amount: disburse_amount as u128,
                                },
                                performance_fee: Coin {
                                    denom: b.target_denom,
                                    amount: fee as u128,
                                },
                            },
                        },
                    )
                    &&& !has_task(final(state).disburse_escrow_tasks@, bounty_id)
                    &&& (has_task(old(state).disburse_escrow_tasks@, bounty_id)
                        ==> final(state).disburse_escrow_tasks@
                        == old(state).disburse_escrow_tasks@.remove(
                        task_index(old(state).disburse_escrow_tasks@, bounty_id),
                    ))
                    &&& (!has_task(old(state).disburse_escrow_tasks@, bounty_id)
                        ==> final(state).disburse_escrow_tasks@
                        == old(state).disburse_escrow_tasks@)
                    &&& queue_entries(final(state).post_action_queues@, bounty_id)
                        == queue_entries(old(state).post_action_queues@, bounty_id)
                        + disbursement_entries(b.destinations@, disburse_amount, b.target_denom)
                    &&& final(state).bounty_id_cache == Some(bounty_id)
                    &&& final(state).swap_cache == old(state).swap_cache
                    &&& final(state).config == old(state).config
                    &&& final(state).bounty_counter == old(state).bounty_counter
                } else {
                    r == Err::<Response, ContractError>(
                        ContractError::Math { error: MathError::Overflow },
                    ) && *final(state) == *old(state)
                }
            },
        },
{
    match assert_sender_is_executor(state, &info.sender) {
        Ok(_) => {},
        Err(e) => {
            return Err(e);
        },
    }
    let idx = match find_bounty_index(state, bounty_id) {
        Some(i) => i,
        None => {
            return Err(ContractError::BountyNotFound { bounty_id });
        },
    };
    if state.bounties[idx].escrowed_amount.amount == 0 {
        return Ok(Response::new());
    }
    match get_disburse_escrow_task_due_date(state, bounty_id) {
        Some(due) => {
            if block.time < due {
                return Err(ContractError::EscrowNotDue { due });
            }
        },
        None => {},
    }
    let bounty_copy = state.bounties[idx].clone();
    proof {
        assert(crate::bounty::bounty_copies(state.bounties@[idx as int], bounty_copy));
        lemma_fee_spec_congruent(state.bounties@[idx as int], bounty_copy, current_price);
    }
    let fee_coin = match get_performance_fee(&bounty_copy, current_price) {
        Ok(c) => c,
        Err(e) => {
            return Err(e);
        },
    };
    let fee = fee_coin.amount;
    let disburse_amount = state.bounties[idx].escrowed_amount.amount - fee;
    let target_denom = state.bounties[idx].target_denom.clone();
    let fee_messages = match get_fee_messages(state, fee, &target_denom) {
        Ok(v) => v,
        Err(e) => {
            return Err(e);
        },
    };
    let mut messages = match get_disbursement_messages(state, &bounty_copy, disburse_amount) {
        Ok(v) => v,
        Err(e) => {
            return Err(e);
        },
    };
    let ghost before = state.bounties@;
    state.bounties[idx].escrowed_amount.amount = 0;
    proof {
        assert(state.bounties@ =~= before.update(
            idx as int,
            (Bounty {
                escrowed_amount: Coin { denom: before[idx as int].escrowed_amount.denom, amount: 0 },
                ..before[idx as int]
            }),
        ));
        assert forall|a: int, b: int|
            0 <= a < b < state.bounties@.len() implies state.bounties@[a].id
            < state.bounties@[b].id by {
            assert(before[a].id < before[b].id);
        }
    }
    match create_event(
        state,
        EventBuilder::new(
            bounty_id,
            block,
            EventData::BountyEscrowDisbursed {
                amount_disbursed: Coin { denom: target_denom.clone(), amount: disburse_amount },
                performance_fee: Coin { denom: target_denom, amount: fee },
            },
        ),
    ) {
        Ok(_) => {},
        Err(e) => {
            return Err(e);
        },
    }
    match delete_disburse_escrow_task(state, bounty_id) {
        Ok(_) => {},
        Err(e) => {
            return Err(e);
        },
    }
    state.bounty_id_cache = Some(bounty_id);
    let ghost disb = messages@;
    let mut k: usize = 0;
    let fee_len = fee_messages.len();
    while k < fee_len
        invariant
            fee_len == fee_messages@.len(),
            k <= fee_len,
            messages@ == disb + fee_messages@.subrange(0, k as int),
        decreases fee_len - k,
    {
        let m = fee_messages[k].clone();
        messages.push(m);
        proof {
            assert(messages@ =~= disb + fee_messages@.subrange(0, k as int + 1));
        }
        k = k + 1;
    }
    proof {
        assert(fee_messages@.subrange(0, fee_messages@.len() as int) =~= fee_messages@);
    }
    Ok(Response { messages })
}

/// Two vaults that hold the same values owe the same performance fee.
proof fn lemma_fee_spec_congruent(a: Bounty, b: Bounty, price: Decimal)
    requires
        crate::bounty::bounty_copies(a, b),
    ensures
        performance_fee_spec(a, price.atomics as int) == performance_fee_spec(
            b,
            price.atomics as int,
        ),
        (match a.performance_assessment_strategy {
            None => true,
            Some(st) => performance_values_fit(a, st, price.atomics as int)
                == performance_values_fit(b, st, price.atomics as int),
        }),
{
}

} // verus!
