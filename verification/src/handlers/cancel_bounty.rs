//! Cancelling a vault: terminal, refunds the balance, and defers any escrow.

use vstd::prelude::*;
use crate::bounty::{expected_completed_spec, Bounty, BountyStatus};
use crate::coin::Coin;
use crate::error::ContractError;
use crate::event::{BlockInfo, Event, EventBuilder, EventData};
use crate::msg::MessageInfo;
use crate::msgs::{OutMsg, OutMsgBody, ReplyOn, Response, FAIL_SILENTLY_REPLY_ID};
use crate::state::{
    bounty_at, bounty_index, create_event, find_bounty_index, has_bounty, has_task,
    save_disburse_escrow_task, task_index, DisburseEscrowTask, State,
};
use crate::trigger::TriggerConfiguration;

verus! {

/// Why a cancellation is rejected, in the order the checks run.
pub open spec fn cancel_checks(s: State, info: MessageInfo, bounty_id: u128) -> Option<
    ContractError,
> {
    if !has_bounty(s.bounties@, bounty_id) {
        Some(ContractError::BountyNotFound { bounty_id })
    } else {
        let b = bounty_at(s.bounties@, bounty_id);
        if info.sender@ != s.config.admin@ && info.sender@ != b.owner@ {
            Some(ContractError::Unauthorized)
        } else if b.status == BountyStatus::Cancelled {
            Some(ContractError::BountyCancelled)
        } else {
            None
        }
    }
}

/// The vault once cancelled: emptied, trigger gone, terminal.
pub open spec fn cancelled_bounty(b: Bounty) -> Bounty {
    Bounty {
        status: BountyStatus::Cancelled,
        balance: Coin { denom: b.balance.denom, amount: 0 },
        trigger: None,
        ..b
    }
}

/// The messages a cancellation issues: the refund of any remaining balance to
/// the owner, and, for a standing limit order, its best-effort retraction and
/// withdrawal, whose outcomes are ignored.
pub open spec fn cancel_msgs(b: Bounty, exchange: String) -> Seq<OutMsg> {
    let refund: Seq<OutMsg> = if b.balance.amount > 0 {
        seq![
            OutMsg {
                id: 0,
                reply_on: ReplyOn::Never,
                body: OutMsgBody::BankSend { to_address: b.owner, amount: b.balance },
            },
        ]
    } else {
        Seq::empty()
    };
    match b.trigger {
        Some(TriggerConfiguration::Price { order_idx, .. }) => refund + seq![
            OutMsg {
                id: FAIL_SILENTLY_REPLY_ID,
                reply_on: ReplyOn::Error,
                body: OutMsgBody::RetractOrder { contract_addr: exchange, order_idx },
            },
            OutMsg {
                id: FAIL_SILENTLY_REPLY_ID,
                reply_on: ReplyOn::Error,
                body: OutMsgBody::WithdrawOrder { contract_addr: exchange, order_idx },
            },
        ],
        _ => refund,
    }
}

/// Cancels a vault: refunds its balance to the owner, removes its trigger
/// (retracting a standing limit order best-effort), and, if escrow is held,
/// schedules its disbursement for the date execution would naturally have
/// finished. Only the owner or the admin may cancel, and only once.
pub fn cancel_bounty_handler(
    state: &mut State,
    block: BlockInfo,
    info: &MessageInfo,
    bounty_id: u128,
) -> (r: Result<Response, ContractError>)
    requires
        old(state).wf(),
        old(state).events@.len() < u64::MAX,
    ensures
        final(state).wf(),
        match cancel_checks(*old(state), *info, bounty_id) {
            Some(e) => r == Err::<Response, ContractError>(e) && *final(state) == *old(state),
            None => {
                let b = bounty_at(old(state).bounties@, bounty_id);
                let due = expected_completed_spec(b, block.time as int) as u64;
                &&& r matches Ok(resp) && resp.messages@ == cancel_msgs(
                    b,
                    old(state).config.exchange_contract_address,
                )
                &&& final(state).bounties@ == old(state).bounties@.update(
                    bounty_index(old(state).bounties@, bounty_id),
                    cancelled_bounty(b),
                )
                &&& final(state).events@ == old(state).events@.push(
                    Event {
                        id: (old(state).events@.len() + 1) as u64,
                        resource_id: bounty_id,
                        timestamp: block.time,
                        block_height: block.height,
                        data: EventData::BountyCancelled {  },
                    },
                )
                &&& b.escrowed_amount.amount == 0 ==> final(state).disburse_escrow_tasks == old(
                    state,
                ).disburse_escrow_tasks
                &&& b.escrowed_amount.amount > 0 && !has_task(
                    old(state).disburse_escrow_tasks@,
                    bounty_id,
                ) ==> final(state).disburse_escrow_tasks@ == old(state).disburse_escrow_tasks@.push(
                    DisburseEscrowTask { bounty_id, due },
                )
                &&& b.escrowed_amount.amount > 0 && has_task(
                    old(state).disburse_escrow_tasks@,
                    bounty_id,
                ) ==> final(state).disburse_escrow_tasks@ == old(
                    state,
                ).disburse_escrow_tasks@.remove(
                    task_index(old(state).disburse_escrow_tasks@, bounty_id),
                ).push(DisburseEscrowTask { bounty_id, due })
                &&& final(state).config == old(state).config
                &&& final(state).bounty_counter == old(state).bounty_counter
                &&& final(state).swap_cache == old(state).swap_cache
                &&& final(state).bounty_id_cache == old(state).bounty_id_cache
                &&& final(state).post_action_queues == old(state).post_action_queues
            },
        },
{
    let idx = match find_bounty_index(state, bounty_id) {
        Some(i) => i,
        None => {
            return Err(ContractError::BountyNotFound { bounty_id });
        },
    };
    if info.sender != state.config.admin && info.sender != state.bounties[idx].owner {
        return Err(ContractError::Unauthorized);
    }
    if state.bounties[idx].status == BountyStatus::Cancelled {
        return Err(ContractError::BountyCancelled);
    }
    match create_event(
        state,
        EventBuilder::new(bounty_id, block, EventData::BountyCancelled {  }),
    ) {
        Ok(_) => {},
        Err(e) => {
            return Err(e);
        },
    }
    if state.bounties[idx].escrowed_amount.amount > 0 {
        let due = state.bounties[idx].get_expected_execution_completed_date(block.time);
        match save_disburse_escrow_task(state, bounty_id, due) {
            Ok(_) => {},
            Err(e) => {
                return Err(e);
            },
        }
    }
    let mut messages: Vec<OutMsg> = Vec::new();
    if state.bounties[idx].balance.amount > 0 {
        messages.push(
            OutMsg::new(
                OutMsgBody::BankSend {
                    to_address: state.bounties[idx].owner.clone(),
                    amount: state.bounties[idx].balance.clone(),
                },
            ),
        );
    }
    match state.bounties[idx].trigger {
        Some(TriggerConfiguration::Price { order_idx, .. }) => {
            messages.push(
                OutMsg::reply_on_error(
                    OutMsgBody::RetractOrder {
                        contract_addr: state.config.exchange_contract_address.clone(),
                        order_idx,
                    },
                    FAIL_SILENTLY_REPLY_ID,
                ),
            );
            messages.push(
                OutMsg::reply_on_error(
                    OutMsgBody::WithdrawOrder {
                        contract_addr: state.config.exchange_contract_address.clone(),
                        order_idx,
                    },
                    FAIL_SILENTLY_REPLY_ID,
                ),
            );
        },
        _ => {},
    }
    let ghost before = state.bounties@;
    state.bounties[idx].status = BountyStatus::Cancelled;
    state.bounties[idx].balance.amount = 0;
    state.bounties[idx].trigger = None;
    proof {
        assert(state.bounties@ =~= before.update(
            idx as int,
            cancelled_bounty(before[idx as int]),
        ));
        assert forall|a: int, b: int|
            0 <= a < b < state.bounties@.len() implies state.bounties@[a].id
            < state.bounties@[b].id by {
            assert(before[a].id < before[b].id);
        }
        assert(messages@ =~= cancel_msgs(
            bounty_at(old(state).bounties@, bounty_id),
            old(state).config.exchange_contract_address,
        ));
    }
    Ok(Response { messages })
}

} // verus!
