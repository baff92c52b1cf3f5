//! Depositing funds into a vault.

use vstd::prelude::*;
use crate::bounty::{Bounty, BountyStatus};
use crate::coin::Coin;
use crate::error::ContractError;
use crate::event::{BlockInfo, Event, EventBuilder, EventData};
use crate::msg::MessageInfo;
use crate::msgs::Response;
use crate::state::{bounty_at, create_event, find_bounty_index, has_bounty, State};
use crate::time::{get_next_target_time, next_fire_spec};
use crate::trigger::TriggerConfiguration;

verus! {

/// Why a deposit is rejected, in the order the checks run; `None` means it
/// goes through.
pub open spec fn deposit_checks(
    s: State,
    info: MessageInfo,
    address: String,
    bounty_id: u128,
) -> Option<ContractError> {
    if s.config.paused {
        Some(ContractError::Paused)
    } else if info.funds@.len() != 1 {
        Some(ContractError::FundsCountWrong { count: info.funds@.len() as u64 })
    } else if !has_bounty(s.bounties@, bounty_id) {
        Some(ContractError::BountyNotFound { bounty_id })
    } else {
        let b = bounty_at(s.bounties@, bounty_id);
        if address@ != b.owner@ {
            Some(ContractError::IncorrectOwner { bounty_id })
        } else if b.status == BountyStatus::Cancelled {
            Some(ContractError::BountyCancelled)
        } else if info.funds@[0].denom@ != b.balance.denom@ {
            Some(
                ContractError::DenomMismatch {
                    received: info.funds@[0].denom,
                    needed: b.balance.denom,
                },
            )
        } else if b.balance.amount + info.funds@[0].amount > u128::MAX
            || b.deposited_amount.amount + info.funds@[0].amount > u128::MAX {
            Some(ContractError::Math { error: crate::math::MathError::Overflow })
        } else {
            None
        }
    }
}

/// The vault after a deposit of `amount` at `now`: balance and running total
/// grown; an inactive vault is set active again only when the new balance
/// covers one more configured execution, and a fresh time trigger is laid
/// down then if it had none.
pub open spec fn deposited_bounty(b: Bounty, amount: Coin, now: u64) -> Bounty {
    let new_balance = b.balance.amount + amount.amount;
    let reactivated = b.status == BountyStatus::Inactive && new_balance >= b.swap_amount;
    Bounty {
        balance: Coin { denom: b.balance.denom, amount: new_balance as u128 },
        deposited_amount: Coin {
            denom: b.deposited_amount.denom,
            amount: (b.deposited_amount.amount + amount.amount) as u128,
        },
        status: if reactivated {
            BountyStatus::Active
        } else {
            b.status
        },
        trigger: if reactivated && b.trigger is None {
            Some(
                TriggerConfiguration::Time {
                    target_time: next_fire_spec(
                        now as int,
                        (match b.started_at {
                            Some(t) => t,
                            None => now,
                        }) as int,
                        b.time_interval,
                    ) as u64,
                },
            )
        } else {
            b.trigger
        },
        ..b
    }
}

/// Adds the sent funds to the vault's balance and running deposit total,
/// reactivates an inactive vault once the balance covers one more execution
/// (laying down a fresh time trigger then if it had none), and records a
/// funds-deposited event. A cancelled vault never takes funds again.
pub fn deposit_handler(
    state: &mut State,
    block: BlockInfo,
    info: &MessageInfo,
    address: String,
    bounty_id: u128,
) -> (r: Result<Response, ContractError>)
    requires
        old(state).wf(),
        old(state).events@.len() < u64::MAX,
    ensures
        final(state).wf(),
        match deposit_checks(*old(state), *info, address, bounty_id) {
            Some(e) => r == Err::<Response, ContractError>(e) && *final(state) == *old(state),
            None => r matches Ok(resp) && resp.messages@.len() == 0 && final(state).bounties@
                == old(state).bounties@.update(
                crate::state::bounty_index(old(state).bounties@, bounty_id),
                deposited_bounty(
                    bounty_at(old(state).bounties@, bounty_id),
                    info.funds@[0],
                    block.time,
                ),
            ) && final(state).events@ == old(state).events@.push(
                Event {
                    id: (old(state).events@.len() + 1) as u64,
                    resource_id: bounty_id,
                    timestamp: block.time,
                    block_height: block.height,
                    data: EventData::BountyFundsDeposited { amount: info.funds@[0] },
                },
            ) && final(state).config == old(state).config
                && final(state).bounty_counter == old(state).bounty_counter
                && final(state).disburse_escrow_tasks == old(state).disburse_escrow_tasks
                && final(state).swap_cache == old(state).swap_cache
                && final(state).bounty_id_cache == old(state).bounty_id_cache
                && final(state).post_action_queues == old(state).post_action_queues,
        },
{
    if state.config.paused {
        return Err(ContractError::Paused);
    }
    if info.funds.len() != 1 {
        let n = info.funds.len();
        return Err(ContractError::FundsCountWrong { count: n as u64 });
    }
    let idx = match find_bounty_index(state, bounty_id) {
        Some(i) => i,
        None => {
            return Err(ContractError::BountyNotFound { bounty_id });
        },
    };
    if address != state.bounties[idx].owner {
        return Err(ContractError::IncorrectOwner { bounty_id });
    }
    if state.bounties[idx].status == BountyStatus::Cancelled {
        return Err(ContractError::BountyCancelled);
    }
    if info.funds[0].denom != state.bounties[idx].balance.denom {
        return Err(
            ContractError::DenomMismatch {
                received: info.funds[0].denom.clone(),
                needed: state.bounties[idx].balance.denom.clone(),
            },
        );
    }
    let amount = info.funds[0].amount;
    let new_balance = match state.bounties[idx].balance.amount.checked_add(amount) {
        Some(v) => v,
        None => {
            return Err(ContractError::Math { error: crate::math::MathError::Overflow });
        },
    };
    let new_deposited = match state.bounties[idx].deposited_amount.amount.checked_add(amount) {
        Some(v) => v,
        None => {
            return Err(ContractError::Math { error: crate::math::MathError::Overflow });
        },
    };
    let reactivated = state.bounties[idx].status == BountyStatus::Inactive && new_balance
        >= state.bounties[idx].swap_amount;
    let had_no_trigger = state.bounties[idx].trigger.is_none();
    let target_time = if reactivated && had_no_trigger {
        let basis = match state.bounties[idx].started_at {
            Some(t) => t,
            None => block.time,
        };
        get_next_target_time(block.time, basis, &state.bounties[idx].time_interval.clone())
    } else {
        0
    };
    let ghost before = state.bounties@;
    state.bounties[idx].balance.amount = new_balance;
    state.bounties[idx].deposited_amount.amount = new_deposited;
    if reactivated {
        state.bounties[idx].status = BountyStatus::Active;
        if had_no_trigger {
            state.bounties[idx].trigger = Some(TriggerConfiguration::Time { target_time });
        }
    }
    proof {
        assert(state.bounties@ =~= before.update(
            idx as int,
            deposited_bounty(before[idx as int], info.funds@[0], block.time),
        ));
        assert forall|a: int, b: int|
            0 <= a < b < state.bounties@.len() implies state.bounties@[a].id
            < state.bounties@[b].id by {
            assert(before[a].id < before[b].id);
        }
    }
    let event_amount = info.funds[0].clone();
    match create_event(
        state,
        EventBuilder::new(
            bounty_id,
            block,
            EventData::BountyFundsDeposited { amount: event_amount },
        ),
    ) {
        Ok(_) => {},
        Err(e) => {
            return Err(e);
        },
    }
    Ok(Response::new())
}

} // verus!
