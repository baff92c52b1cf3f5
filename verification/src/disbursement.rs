//! Fan-out of settled proceeds across a vault's destinations.
//!
//! Each destination receives `floor(amount * allocation)`; the truncation
//! losses accrue to no one, a known bias that is kept as observed. Every
//! share is issued as its own monitored message and queued, so that each
//! outcome can be resolved one at a time and a failure refunds exactly that
//! share.

use vstd::prelude::*;
use crate::bounty::Bounty;
use crate::coin::Coin;
use crate::destination::Destination;
use crate::error::ContractError;
use crate::math::{mul_floor, mul_floor_spec, MathError};
use crate::msgs::{OutMsg, OutMsgBody, ReplyOn, AFTER_FAILED_AUTOMATION_REPLY_ID};
use crate::state::{
    queue_entries, queue_push_entry, PostExecutionActionCacheEntry, State,
};

verus! {

/// One destination's share of `amount`.
pub open spec fn share_of(amount: int, d: Destination) -> int {
    mul_floor_spec(amount, d.allocation.atomics as int)
}

/// Every destination's share fits in 128 bits.
pub open spec fn shares_ok(dests: Seq<Destination>, amount: int) -> bool {
    forall|i: int| 0 <= i < dests.len() ==> share_of(amount, #[trigger] dests[i]) <= u128::MAX
}

/// The monitored message that hands one destination its share: a contract
/// call carrying the destination's forwarding instruction when it has one, a
/// plain transfer otherwise.
pub open spec fn disb_msg(d: Destination, share: int, denom: String) -> OutMsg {
    match d.msg {
        Some(payload) => OutMsg {
            id: AFTER_FAILED_AUTOMATION_REPLY_ID,
            reply_on: ReplyOn::Always,
            body: OutMsgBody::Execute {
                contract_addr: d.address,
                msg: payload,
                funds: Coin { denom, amount: share as u128 },
            },
        },
        None => OutMsg {
            id: AFTER_FAILED_AUTOMATION_REPLY_ID,
            reply_on: ReplyOn::Always,
            body: OutMsgBody::BankSend {
                to_address: d.address,
                amount: Coin { denom, amount: share as u128 },
            },
        },
    }
}

/// The queued record of one issued share.
pub open spec fn disb_entry(d: Destination, share: int, denom: String) -> PostExecutionActionCacheEntry {
    PostExecutionActionCacheEntry {
        msg: disb_msg(d, share, denom),
        funds: Coin { denom, amount: share as u128 },
    }
}

/// The messages the fan-out issues, in destination order, zero shares left
/// out.
pub open spec fn disbursement_msgs(dests: Seq<Destination>, amount: int, denom: String) -> Seq<
    OutMsg,
>
    decreases dests.len(),
{
    if dests.len() == 0 {
        Seq::empty()
    } else {
        let rest = disbursement_msgs(dests.drop_last(), amount, denom);
        let share = share_of(amount, dests.last());
        if share == 0 {
            rest
        } else {
            rest.push(disb_msg(dests.last(), share, denom))
        }
    }
}

/// The queue records the fan-out appends, in destination order, zero shares
/// left out.
pub open spec fn disbursement_entries(dests: Seq<Destination>, amount: int, denom: String) -> Seq<
    PostExecutionActionCacheEntry,
>
    decreases dests.len(),
{
    if dests.len() == 0 {
        Seq::empty()
    } else {
        let rest = disbursement_entries(dests.drop_last(), amount, denom);
        let share = share_of(amount, dests.last());
        if share == 0 {
            rest
        } else {
            rest.push(disb_entry(dests.last(), share, denom))
        }
    }
}

/// Splits `amount` of the vault's target denomination across its
/// destinations: returns the monitored messages to issue and queues one
/// record per issued share, oldest first. On arithmetic failure nothing is
/// changed.
pub fn get_disbursement_messages(state: &mut State, bounty: &Bounty, amount: u128) -> (r: Result<
    Vec<OutMsg>,
    ContractError,
>)
    requires
        old(state).wf(),
    ensures
        final(state).wf(),
        shares_ok(bounty.destinations@, amount as int) ==> (r matches Ok(msgs) && msgs@
            == disbursement_msgs(bounty.destinations@, amount as int, bounty.target_denom)
            && queue_entries(final(state).post_action_queues@, bounty.id) == queue_entries(
            old(state).post_action_queues@,
            bounty.id,
        ) + disbursement_entries(bounty.destinations@, amount as int, bounty.target_denom)),
        !shares_ok(bounty.destinations@, amount as int) ==> (r == Err::<Vec<OutMsg>, ContractError>(
            ContractError::Math { error: MathError::Overflow },
        ) && *final(state) == *old(state)),
        forall|other: u128|
            other != bounty.id ==> #[trigger] queue_entries(
                final(state).post_action_queues@,
                other,
            ) == queue_entries(old(state).post_action_queues@, other),
        final(state).bounty_counter == old(state).bounty_counter,
        final(state).config == old(state).config,
        final(state).bounties == old(state).bounties,
        final(state).events == old(state).events,
        final(state).disburse_escrow_tasks == old(state).disburse_escrow_tasks,
        final(state).swap_cache == old(state).swap_cache,
        final(state).bounty_id_cache == old(state).bounty_id_cache,
{
    let n = bounty.destinations.len();
    let mut shares: Vec<u128> = Vec::new();
    let mut i: usize = 0;
    while i < n
        invariant
            old(state).wf(),
            *state == *old(state),
            n == bounty.destinations@.len(),
            i <= n,
            shares@.len() == i,
            forall|k: int|
                0 <= k < i ==> #[trigger] shares@[k] == share_of(
                    amount as int,
                    bounty.destinations@[k],
                ),
        decreases n - i,
    {
        match mul_floor(amount, bounty.destinations[i].allocation) {
            Ok(share) => {
                shares.push(share);
            },
            Err(_) => {
                proof {
                    assert(share_of(amount as int, bounty.destinations@[i as int]) > u128::MAX);
                    assert(!shares_ok(bounty.destinations@, amount as int));
                }
                return Err(ContractError::Math { error: MathError::Overflow });
            },
        }
        i = i + 1;
    }
    proof {
        assert forall|k: int|
            0 <= k < bounty.destinations@.len() implies share_of(
            amount as int,
            #[trigger] bounty.destinations@[k],
        ) <= u128::MAX by {
            assert(shares@[k] == share_of(amount as int, bounty.destinations@[k]));
        }
        assert(shares_ok(bounty.destinations@, amount as int));
    }
    let mut msgs: Vec<OutMsg> = Vec::new();
    let mut j: usize = 0;
    while j < n
        invariant
            old(state).wf(),
            state.wf(),
            n == bounty.destinations@.len(),
            j <= n,
            shares@.len() == n,
            forall|k: int|
                0 <= k < n ==> #[trigger] shares@[k] == share_of(
                    amount as int,
                    bounty.destinations@[k],
                ),
            msgs@ == disbursement_msgs(
                bounty.destinations@.subrange(0, j as int),
                amount as int,
                bounty.target_denom,
            ),
            queue_entries(state.post_action_queues@, bounty.id) == queue_entries(
                old(state).post_action_queues@,
                bounty.id,
            ) + disbursement_entries(
                bounty.destinations@.subrange(0, j as int),
                amount as int,
                bounty.target_denom,
            ),
            forall|other: u128|
                other != bounty.id ==> #[trigger] queue_entries(state.post_action_queues@, other)
                    == queue_entries(old(state).post_action_queues@, other),
            state.bounty_counter == old(state).bounty_counter,
            state.config == old(state).config,
            state.bounties == old(state).bounties,
            state.events == old(state).events,
            state.disburse_escrow_tasks == old(state).disburse_escrow_tasks,
            state.swap_cache == old(state).swap_cache,
            state.bounty_id_cache == old(state).bounty_id_cache,
        decreases n - j,
    {
        let ghost prefix = bounty.destinations@.subrange(0, j as int);
        let d = &bounty.destinations[j];
        let share = shares[j];
        proof {
            assert(bounty.destinations@.subrange(0, j as int + 1).drop_last() =~= prefix);
        }
        if share > 0 {
            let funds = Coin { denom: bounty.target_denom.clone(), amount: share };
            let body = match &d.msg {
                Some(payload) => OutMsgBody::Execute {
                    contract_addr: d.address.clone(),
                    msg: payload.clone(),
                    funds: funds.clone(),
                },
                None => OutMsgBody::BankSend {
                    to_address: d.address.clone(),
                    amount: funds.clone(),
                },
            };
            let msg = OutMsg::reply_always(body, AFTER_FAILED_AUTOMATION_REPLY_ID);
            let entry = PostExecutionActionCacheEntry { msg: msg.clone(), funds };
            proof {
                assert(msg == disb_msg(
                    bounty.destinations@[j as int],
                    share as int,
                    bounty.target_denom,
                ));
                assert(entry == disb_entry(
                    bounty.destinations@[j as int],
                    share as int,
                    bounty.target_denom,
                ));
            }
            queue_push_entry(state, bounty.id, entry);
            msgs.push(msg);
            proof {
                let full = queue_entries(old(state).post_action_queues@, bounty.id);
                let es = disbursement_entries(prefix, amount as int, bounty.target_denom);
                let e2 = disbursement_entries(
                    bounty.destinations@.subrange(0, j as int + 1),
                    amount as int,
                    bounty.target_denom,
                );
                assert(e2 == es.push(
                    disb_entry(bounty.destinations@[j as int], share as int, bounty.target_denom),
                ));
                assert((full + es).push(
                    disb_entry(bounty.destinations@[j as int], share as int, bounty.target_denom),
                ) =~= full + e2);
            }
        }
        j = j + 1;
    }
    proof {
        assert(bounty.destinations@.subrange(0, n as int) =~= bounty.destinations@);
    }
    Ok(msgs)
}

} // verus!
