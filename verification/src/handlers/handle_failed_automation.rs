//! Resolving one queued post-execution action's outcome.
//!
//! Outcomes arrive one at a time, in the order the actions were issued; the
//! queue entry is consumed either way, so the queue always reads as the work
//! remaining. A failure never aborts anything else: the funds that would
//! have been delivered go back to the vault's owner, and the failure is put
//! on the record.

use vstd::prelude::*;
use crate::error::ContractError;
use crate::event::{BlockInfo, Event, EventBuilder, EventData};
use crate::msgs::{OutMsg, OutMsgBody, ReplyOn, Response};
use crate::state::{
    bounty_at, create_event, find_bounty_index, has_bounty, queue_entries, queue_pop_front, State,
};

verus! {

/// Why a post-execution outcome is rejected: no action was awaiting one, or
/// its vault is gone.
pub open spec fn automation_checks(s: State) -> Option<ContractError> {
    match s.bounty_id_cache {
        None => Some(ContractError::CacheMissing),
        Some(id) => {
            if !has_bounty(s.bounties@, id) {
                Some(ContractError::BountyNotFound { bounty_id: id })
            } else {
                None
            }
        },
    }
}

/// Consumes the oldest queued post-execution action for the cached vault.
/// On success nothing more happens; on failure the attempted message and its
/// funds are put on the record and exactly those funds are sent back to the
/// vault's owner.
pub fn handle_failed_automation_handler(
    state: &mut State,
    block: BlockInfo,
    result_ok: bool,
) -> (r: Result<Response, ContractError>)
    requires
        old(state).wf(),
        old(state).events@.len() < u64::MAX,
        match old(state).bounty_id_cache {
            Some(id) => queue_entries(old(state).post_action_queues@, id).len() > 0,
            None => true,
        },
    ensures
        final(state).wf(),
        match automation_checks(*old(state)) {
            Some(e) => r == Err::<Response, ContractError>(e) && *final(state) == *old(state),
            None => {
                let id = old(state).bounty_id_cache->0;
                let b = bounty_at(old(state).bounties@, id);
                let entry = queue_entries(old(state).post_action_queues@, id)[0];
                &&& queue_entries(final(state).post_action_queues@, id) == queue_entries(
                    old(state).post_action_queues@,
                    id,
                ).drop_first()
                &&& (forall|other: u128|
                    other != id ==> #[trigger] queue_entries(
                        final(state).post_action_queues@,
                        other,
                    ) == queue_entries(old(state).post_action_queues@, other))
                &&& final(state).bounties == old(state).bounties
                &&& final(state).config == old(state).config
                &&& final(state).bounty_counter == old(state).bounty_counter
                &&& final(state).disburse_escrow_tasks == old(state).disburse_escrow_tasks
                &&& final(state).swap_cache == old(state).swap_cache
                &&& final(state).bounty_id_cache == old(state).bounty_id_cache
                &&& (if result_ok {
                    &&& r matches Ok(resp) && resp.messages@.len() == 0
                    &&& final(state).events == old(state).events
                } else {
                    &&& r matches Ok(resp) && resp.messages@ == seq![
                        OutMsg {
                            id: 0,
                            reply_on: ReplyOn::Never,
                            body: OutMsgBody::BankSend {
                                to_address: b.owner,
                                amount: entry.funds,
                            },
                        },
                    ]
                    &&& final(state).events@ == old(state).events@.push(
                        Event {
                            id: (old(state).events@.len() + 1) as u64,
                            resource_id: id,
                            timestamp: block.time,
                            block_height: block.height,
                            data: EventData::BountyPostExecutionActionFailed {
                                msg: entry.msg,
                                funds: entry.funds,
                            },
                        },
                    )
                })
            },
        },
{
    let bounty_id = match state.bounty_id_cache {
        Some(id) => id,
        None => {
            return Err(ContractError::CacheMissing);
        },
    };
    let idx = match find_bounty_index(state, bounty_id) {
        Some(i) => i,
        None => {
            return Err(ContractError::BountyNotFound { bounty_id });
        },
    };
    let entry = match queue_pop_front(state, bounty_id) {
        Some(e) => e,
        None => {
            proof {
                assert(false);
            }
            return Err(ContractError::CacheMissing);
        },
    };
    if result_ok {
        Ok(Response::new())
    } else {
        let owner = state.bounties[idx].owner.clone();
        let refund = entry.funds.clone();
        match create_event(
            state,
            EventBuilder::new(
                bounty_id,
                block,
                EventData::BountyPostExecutionActionFailed {
                    msg: entry.msg,
                    funds: entry.funds,
                },
            ),
        ) {
            Ok(_) => {},
            Err(e) => {
                return Err(e);
            },
        }
        let mut messages: Vec<OutMsg> = Vec::new();
        messages.push(OutMsg::new(OutMsgBody::BankSend { to_address: owner, amount: refund }));
        proof {
            assert(messages@ =~= seq![
                OutMsg {
                    id: 0,
                    reply_on: ReplyOn::Never,
                    body: OutMsgBody::BankSend {
                        to_address: bounty_at(
                            old(state).bounties@,
                            old(state).bounty_id_cache->0,
                        ).owner,
                        amount: queue_entries(
                            old(state).post_action_queues@,
                            old(state).bounty_id_cache->0,
                        )[0].funds,
                    },
                },
            ]);
        }
        Ok(Response { messages })
    }
}

} // verus!
