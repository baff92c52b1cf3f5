//! The ledger store: vaults with their counter, the append-only event log,
//! deferred escrow tasks, and the continuation caches.
//!
//! Every inbound request runs against one `State` value and either commits all
//! of its writes or none: a handler that rejects returns the state untouched.

use vstd::prelude::*;
use crate::bounty::{bounty_copies, Bounty, BountyBuilder};
use crate::config::Config;
use crate::error::ContractError;
use crate::event::{event_copies, Event, EventBuilder};
use crate::trigger::{Trigger, TriggerConfiguration};
use crate::msgs::OutMsg;
use crate::coin::Coin;
use crate::time::interval_seconds_spec;

verus! {

/// A deferred work item: `bounty_id`'s escrow may be disbursed once the clock
/// reaches `due`.
#[derive(Clone, Copy, PartialEq, Eq, Structural, Debug)]
pub struct DisburseEscrowTask {
    pub bounty_id: u128,
    pub due: u64,
}

/// One queued post-execution action: the message that was issued and the
/// funds it carried, kept so a failure can be refunded and audited.
#[derive(Debug, PartialEq, Eq)]
pub struct PostExecutionActionCacheEntry {
    pub msg: OutMsg,
    pub funds: Coin,
}

impl Clone for PostExecutionActionCacheEntry {
    fn clone(&self) -> (r: PostExecutionActionCacheEntry)
        ensures
            r == *self,
    {
        PostExecutionActionCacheEntry { msg: self.msg.clone(), funds: self.funds.clone() }
    }
}

/// The pending post-execution actions of one vault, oldest first.
#[derive(Debug, PartialEq, Eq)]
pub struct PostActionQueue {
    pub bounty_id: u128,
    pub entries: Vec<PostExecutionActionCacheEntry>,
}

/// What bridges an issued swap call to its result: the vault it belongs to
/// and the trigger configuration that was active when the call went out.
#[derive(Clone, Copy, PartialEq, Eq, Structural, Debug)]
pub struct SwapCache {
    pub bounty_id: u128,
    pub trigger: TriggerConfiguration,
}

/// Everything a request reads and writes.
#[derive(Debug)]
pub struct State {
    pub config: Config,
    /// Next vault id; ids are never reused.
    pub bounty_counter: u128,
    /// Vault records, in strictly increasing id order.
    pub bounties: Vec<Bounty>,
    /// The append-only event log; entry `i` carries id `i + 1`.
    pub events: Vec<Event>,
    pub disburse_escrow_tasks: Vec<DisburseEscrowTask>,
    /// The vault whose swap call is outstanding, and its trigger.
    pub swap_cache: Option<SwapCache>,
    /// The vault whose post-execution actions are being resolved.
    pub bounty_id_cache: Option<u128>,
    pub post_action_queues: Vec<PostActionQueue>,
}

/// Ids strictly increase along the vault list.
pub open spec fn bounties_sorted(s: Seq<Bounty>) -> bool {
    forall|i: int, j: int| 0 <= i < j < s.len() ==> s[i].id < s[j].id
}

/// The structural facts every stored vault keeps: a positive swap amount, a
/// positive interval, and escrow held in the target denomination.
pub open spec fn bounty_wf(b: Bounty) -> bool {
    &&& b.swap_amount > 0
    &&& interval_seconds_spec(b.time_interval) >= 1
    &&& b.escrow_level.atomics <= crate::math::DECIMAL_FRACTIONAL
    &&& b.deposited_amount.denom@ == b.balance.denom@
    &&& b.swapped_amount.denom@ == b.balance.denom@
    &&& b.received_amount.denom@ == b.target_denom@
    &&& b.escrowed_amount.denom@ == b.target_denom@
}

/// There is a vault under this id.
pub open spec fn has_bounty(s: Seq<Bounty>, id: u128) -> bool {
    exists|i: int| 0 <= i < s.len() && s[i].id == id
}

/// The position of the vault under this id.
pub open spec fn bounty_index(s: Seq<Bounty>, id: u128) -> int {
    choose|i: int| 0 <= i < s.len() && s[i].id == id
}

/// The vault under this id.
pub open spec fn bounty_at(s: Seq<Bounty>, id: u128) -> Bounty {
    s[bounty_index(s, id)]
}

/// In a sorted list, ids name positions uniquely.
pub proof fn lemma_sorted_ids_unique(s: Seq<Bounty>, i: int, j: int)
    requires
        bounties_sorted(s),
        0 <= i < s.len(),
        0 <= j < s.len(),
        s[i].id == s[j].id,
    ensures
        i == j,
{
    if i < j {
        assert(s[i].id < s[j].id);
    }
    if j < i {
        assert(s[j].id < s[i].id);
    }
}

/// Task entries name distinct vaults.
pub open spec fn tasks_unique(s: Seq<DisburseEscrowTask>) -> bool {
    forall|i: int, j: int|
        0 <= i < j < s.len() ==> s[i].bounty_id != s[j].bounty_id
}

/// There is a task for this vault.
pub open spec fn has_task(s: Seq<DisburseEscrowTask>, id: u128) -> bool {
    exists|i: int| 0 <= i < s.len() && s[i].bounty_id == id
}

/// The position of this vault's task.
pub open spec fn task_index(s: Seq<DisburseEscrowTask>, id: u128) -> int {
    choose|i: int| 0 <= i < s.len() && s[i].bounty_id == id
}

/// Queues name distinct vaults.
pub open spec fn queues_unique(s: Seq<PostActionQueue>) -> bool {
    forall|i: int, j: int|
        0 <= i < j < s.len() ==> s[i].bounty_id != s[j].bounty_id
}

/// There is a queue for this vault.
pub open spec fn has_queue(s: Seq<PostActionQueue>, id: u128) -> bool {
    exists|i: int| 0 <= i < s.len() && s[i].bounty_id == id
}

/// The position of this vault's queue.
pub open spec fn queue_index(s: Seq<PostActionQueue>, id: u128) -> int {
    choose|i: int| 0 <= i < s.len() && s[i].bounty_id == id
}

/// This vault's pending actions, oldest first; an absent queue is empty.
pub open spec fn queue_entries(s: Seq<PostActionQueue>, id: u128) -> Seq<
    PostExecutionActionCacheEntry,
> {
    if has_queue(s, id) {
        s[queue_index(s, id)].entries@
    } else {
        Seq::empty()
    }
}

impl State {
    /// The store's own shape: vaults sorted under the counter, event ids
    /// dense from one, and at most one task and one queue per vault.
    pub open spec fn wf(self) -> bool {
        &&& self.config.automation_fee_percent.atomics <= crate::math::DECIMAL_FRACTIONAL
        &&& bounties_sorted(self.bounties@)
        &&& forall|i: int|
            0 <= i < self.bounties@.len() ==> (#[trigger] self.bounties@[i]).id
                < self.bounty_counter
        &&& forall|i: int| 0 <= i < self.bounties@.len() ==> bounty_wf(#[trigger] self.bounties@[i])
        &&& forall|i: int|
            0 <= i < self.events@.len() ==> (#[trigger] self.events@[i]).id == i + 1
        &&& self.events@.len() <= u64::MAX
        &&& tasks_unique(self.disburse_escrow_tasks@)
        &&& queues_unique(self.post_action_queues@)
    }

    /// A fresh store holding only its configuration.
    pub fn new(config: Config) -> (r: State)
        requires
            config.automation_fee_percent.atomics <= crate::math::DECIMAL_FRACTIONAL,
        ensures
            r.wf(),
            r.config == config,
            r.bounty_counter == 0,
            r.bounties@ == Seq::<Bounty>::empty(),
            r.events@ == Seq::<Event>::empty(),
            r.disburse_escrow_tasks@ == Seq::<DisburseEscrowTask>::empty(),
            r.swap_cache == Option::<SwapCache>::None,
            r.bounty_id_cache == Option::<u128>::None,
            r.post_action_queues@ == Seq::<PostActionQueue>::empty(),
    {
        State {
            config,
            bounty_counter: 0,
            bounties: Vec::new(),
            events: Vec::new(),
            disburse_escrow_tasks: Vec::new(),
            swap_cache: None,
            bounty_id_cache: None,
            post_action_queues: Vec::new(),
        }
    }
}

/// Vault ids name vaults uniquely: ids count up and are never reused.
pub proof fn lemma_bounty_ids_unique(s: State)
    requires
        s.wf(),
    ensures
        forall|i: int, j: int|
            0 <= i < j < s.bounties@.len() ==> s.bounties@[i].id != s.bounties@[j].id,
{
}

/// Event ids name log records uniquely: the log is an audit trail that can
/// be replayed in id order.
pub proof fn lemma_event_ids_unique(s: State)
    requires
        s.wf(),
    ensures
        forall|i: int, j: int|
            0 <= i < j < s.events@.len() ==> s.events@[i].id != s.events@[j].id,
{
}

/// The position of the vault under `bounty_id`, if any.
pub(crate) fn find_bounty_index(state: &State, bounty_id: u128) -> (r: Option<usize>)
    requires
        state.wf(),
    ensures
        match r {
            Some(i) => i < state.bounties@.len() && state.bounties@[i as int].id == bounty_id && i
                as int == bounty_index(state.bounties@, bounty_id),
            None => !has_bounty(state.bounties@, bounty_id),
        },
{
    let mut i: usize = 0;
    while i < state.bounties.len()
        invariant
            state.wf(),
            i <= state.bounties@.len(),
            forall|j: int| 0 <= j < i ==> (#[trigger] state.bounties@[j]).id != bounty_id,
        decreases state.bounties@.len() - i,
    {
        if state.bounties[i].id == bounty_id {
            proof {
                let w = bounty_index(state.bounties@, bounty_id);
                assert(has_bounty(state.bounties@, bounty_id));
                lemma_sorted_ids_unique(state.bounties@, i as int, w);
            }
            return Some(i);
        }
        i = i + 1;
    }
    None
}

/// Loads a copy of the vault under `bounty_id`.
pub fn get_bounty(state: &State, bounty_id: u128) -> (r: Result<Bounty, ContractError>)
    requires
        state.wf(),
    ensures
        has_bounty(state.bounties@, bounty_id) ==> (r matches Ok(b) && bounty_copies(
            bounty_at(state.bounties@, bounty_id),
            b,
        )),
        !has_bounty(state.bounties@, bounty_id) ==> r == Err::<Bounty, ContractError>(
            ContractError::BountyNotFound { bounty_id },
        ),
{
    match find_bounty_index(state, bounty_id) {
        Some(i) => Ok(state.bounties[i].clone()),
        None => Err(ContractError::BountyNotFound { bounty_id }),
    }
}

/// The stored vault a builder turns into under `id`.
pub open spec fn built_bounty(builder: BountyBuilder, id: u128) -> Bounty {
    Bounty {
        id,
        created_at: builder.created_at,
        started_at: builder.started_at,
        owner: builder.owner,
        label: builder.label,
        destinations: builder.destinations,
        status: builder.status,
        balance: builder.balance,
        target_denom: builder.target_denom,
        route: builder.route,
        swap_amount: builder.swap_amount,
        slippage_tolerance: builder.slippage_tolerance,
        minimum_receive_amount: builder.minimum_receive_amount,
        time_interval: builder.time_interval,
        escrow_level: builder.escrow_level,
        deposited_amount: builder.deposited_amount,
        swapped_amount: builder.swapped_amount,
        received_amount: builder.received_amount,
        escrowed_amount: builder.escrowed_amount,
        performance_assessment_strategy: builder.performance_assessment_strategy,
        swap_adjustment_strategy: builder.swap_adjustment_strategy,
        trigger: None,
    }
}

/// Saves a new vault under the next id from the counter and returns a copy of
/// it.
pub fn save_bounty(state: &mut State, builder: BountyBuilder) -> (r: Bounty)
    requires
        old(state).wf(),
        old(state).bounty_counter < u128::MAX,
        builder.swap_amount > 0,
        interval_seconds_spec(builder.time_interval) >= 1,
        builder.escrow_level.atomics <= crate::math::DECIMAL_FRACTIONAL,
        builder.deposited_amount.denom@ == builder.balance.denom@,
        builder.swapped_amount.denom@ == builder.balance.denom@,
        builder.received_amount.denom@ == builder.target_denom@,
        builder.escrowed_amount.denom@ == builder.target_denom@,
    ensures
        final(state).wf(),
        final(state).bounty_counter == old(state).bounty_counter + 1,
        final(state).bounties@ == old(state).bounties@.push(
            built_bounty(builder, old(state).bounty_counter),
        ),
        bounty_copies(built_bounty(builder, old(state).bounty_counter), r),
        final(state).config == old(state).config,
        final(state).events == old(state).events,
        final(state).disburse_escrow_tasks == old(state).disburse_escrow_tasks,
        final(state).swap_cache == old(state).swap_cache,
        final(state).bounty_id_cache == old(state).bounty_id_cache,
        final(state).post_action_queues == old(state).post_action_queues,
{
    let id = state.bounty_counter;
    state.bounty_counter = state.bounty_counter + 1;
    let bounty = builder.build(id);
    let copy = bounty.clone();
    state.bounties.push(bounty);
    copy
}

/// Replaces the stored vault that carries `bounty.id`.
pub fn update_bounty(state: &mut State, bounty: Bounty) -> (r: Result<(), ContractError>)
    requires
        old(state).wf(),
        bounty_wf(bounty),
    ensures
        final(state).wf(),
        has_bounty(old(state).bounties@, bounty.id) ==> (r == Ok::<(), ContractError>(())
            && final(state).bounties@ == old(state).bounties@.update(
            bounty_index(old(state).bounties@, bounty.id),
            bounty,
        )),
        !has_bounty(old(state).bounties@, bounty.id) ==> (r == Err::<(), ContractError>(
            ContractError::BountyNotFound { bounty_id: bounty.id },
        ) && *final(state) == *old(state)),
        final(state).bounty_counter == old(state).bounty_counter,
        final(state).config == old(state).config,
        final(state).events == old(state).events,
        final(state).disburse_escrow_tasks == old(state).disburse_escrow_tasks,
        final(state).swap_cache == old(state).swap_cache,
        final(state).bounty_id_cache == old(state).bounty_id_cache,
        final(state).post_action_queues == old(state).post_action_queues,
{
    match find_bounty_index(state, bounty.id) {
        Some(i) => {
            state.bounties[i] = bounty;
            proof {
                assert(state.bounties@.len() == old(state).bounties@.len());
                assert forall|a: int, b: int|
                    0 <= a < b < state.bounties@.len() implies state.bounties@[a].id
                    < state.bounties@[b].id by {
                    assert(old(state).bounties@[a].id < old(state).bounties@[b].id);
                }
            }
            Ok(())
        },
        None => Err(ContractError::BountyNotFound { bounty_id: bounty.id }),
    }
}

/// Writes a vault under its own id, replacing any record already there, and
/// keeps the counter past it.
pub fn migrate_bounty(state: &mut State, bounty: Bounty) -> (r: Result<(), ContractError>)
    requires
        old(state).wf(),
        bounty_wf(bounty),
        bounty.id < u128::MAX,
    ensures
        final(state).wf(),
        r == Ok::<(), ContractError>(()),
        has_bounty(final(state).bounties@, bounty.id),
        bounty_at(final(state).bounties@, bounty.id) == bounty,
        has_bounty(old(state).bounties@, bounty.id) ==> final(state).bounties@
            == old(state).bounties@.update(bounty_index(old(state).bounties@, bounty.id), bounty),
        !has_bounty(old(state).bounties@, bounty.id) ==> final(state).bounties@.len()
            == old(state).bounties@.len() + 1,
        final(state).config == old(state).config,
        final(state).events == old(state).events,
        final(state).disburse_escrow_tasks == old(state).disburse_escrow_tasks,
        final(state).swap_cache == old(state).swap_cache,
        final(state).bounty_id_cache == old(state).bounty_id_cache,
        final(state).post_action_queues == old(state).post_action_queues,
{
    if state.bounty_counter <= bounty.id {
        state.bounty_counter = bounty.id + 1;
    }
    let ghost id = bounty.id;
    let mut pos: usize = 0;
    loop
        invariant
            state.wf(),
            *state == *old(state) || state.bounty_counter == bounty.id + 1,
            state.bounties@ == old(state).bounties@,
            pos <= state.bounties@.len(),
            forall|j: int| 0 <= j < pos ==> (#[trigger] state.bounties@[j]).id < bounty.id,
            bounty.id < state.bounty_counter,
        ensures
            state.bounties@ == old(state).bounties@,
            bounty.id < state.bounty_counter,
            pos <= state.bounties@.len(),
            forall|j: int| 0 <= j < pos ==> (#[trigger] state.bounties@[j]).id < bounty.id,
            pos == state.bounties@.len() || state.bounties@[pos as int].id >= bounty.id,
        decreases state.bounties@.len() - pos,
    {
        if pos >= state.bounties.len() {
            break ;
        }
        if state.bounties[pos].id >= bounty.id {
            break ;
        }
        pos = pos + 1;
    }
    if pos < state.bounties.len() && state.bounties[pos].id == bounty.id {
        proof {
            let w = bounty_index(state.bounties@, bounty.id);
            assert(has_bounty(state.bounties@, bounty.id));
            lemma_sorted_ids_unique(state.bounties@, pos as int, w);
        }
        state.bounties[pos] = bounty;
        proof {
            assert forall|a: int, b: int|
                0 <= a < b < state.bounties@.len() implies state.bounties@[a].id
                < state.bounties@[b].id by {
                assert(old(state).bounties@[a].id < old(state).bounties@[b].id);
            }
            assert(has_bounty(state.bounties@, id));
            let w2 = bounty_index(state.bounties@, id);
            lemma_sorted_ids_unique(state.bounties@, pos as int, w2);
        }
    } else {
        proof {
            if has_bounty(state.bounties@, id) {
                let w = bounty_index(state.bounties@, id);
                if w < pos as int {
                    assert(state.bounties@[w].id < id);
                }
                if w > pos as int {
                    assert(state.bounties@[pos as int].id < state.bounties@[w].id);
                }
                assert(false);
            }
        }
        state.bounties.insert(pos, bounty);
        proof {
            let s = state.bounties@;
            assert forall|a: int, b: int| 0 <= a < b < s.len() implies s[a].id < s[b].id by {
                let o = old(state).bounties@;
                if b < pos as int {
                    assert(o[a].id < o[b].id);
                } else if a > pos as int {
                    assert(o[a - 1].id < o[b - 1].id);
                } else if a == pos as int {
                    assert(s[a] == bounty);
                    assert(s[b] == o[b - 1]);
                    assert(!(o[b - 1].id < id) ==> o[b - 1].id >= id);
                    if o[b - 1].id == id {
                        assert(has_bounty(o, id)) by {
                            assert(o[b - 1].id == id);
                        }
                        assert(false);
                    }
                } else if b == pos as int {
                    assert(s[b] == bounty);
                    assert(s[a] == o[a]);
                    assert(o[a].id < id);
                } else {
                    assert(a < pos as int && b > pos as int);
                    assert(s[a] == o[a] && s[b] == o[b - 1]);
                    assert(o[a].id < id);
                    if o[b - 1].id == id {
                        assert(has_bounty(o, id)) by {
                            assert(o[b - 1].id == id);
                        }
                        assert(false);
                    }
                }
            }
            assert(has_bounty(state.bounties@, id)) by {
                assert(state.bounties@[pos as int].id == id);
            }
            let w2 = bounty_index(state.bounties@, id);
            lemma_sorted_ids_unique(state.bounties@, pos as int, w2);
        }
    }
    Ok(())
}

/// Appends an event under the next id; events are never mutated or deleted.
pub fn create_event(state: &mut State, builder: EventBuilder) -> (r: Result<(), ContractError>)
    requires
        old(state).wf(),
        old(state).events@.len() < u64::MAX,
    ensures
        final(state).wf(),
        r == Ok::<(), ContractError>(()),
        final(state).events@ == old(state).events@.push(
            Event {
                id: (old(state).events@.len() + 1) as u64,
                resource_id: builder.resource_id,
                timestamp: builder.timestamp,
                block_height: builder.block_height,
                data: builder.data,
            },
        ),
        final(state).config == old(state).config,
        final(state).bounty_counter == old(state).bounty_counter,
        final(state).bounties == old(state).bounties,
        final(state).disburse_escrow_tasks == old(state).disburse_escrow_tasks,
        final(state).swap_cache == old(state).swap_cache,
        final(state).bounty_id_cache == old(state).bounty_id_cache,
        final(state).post_action_queues == old(state).post_action_queues,
{
    let id = (state.events.len() as u64) + 1;
    let event = builder.build(id);
    state.events.push(event);
    Ok(())
}

/// Gives the vault its trigger; each vault owns at most one.
pub fn save_trigger(state: &mut State, trigger: Trigger) -> (r: Result<(), ContractError>)
    requires
        old(state).wf(),
    ensures
        final(state).wf(),
        has_bounty(old(state).bounties@, trigger.bounty_id) ==> (r == Ok::<(), ContractError>(())
            && final(state).bounties@ == old(state).bounties@.update(
            bounty_index(old(state).bounties@, trigger.bounty_id),
            (Bounty {
                trigger: Some(trigger.configuration),
                ..old(state).bounties@[bounty_index(old(state).bounties@, trigger.bounty_id)]
            }),
        )),
        !has_bounty(old(state).bounties@, trigger.bounty_id) ==> (r == Err::<(), ContractError>(
            ContractError::BountyNotFound { bounty_id: trigger.bounty_id },
        ) && *final(state) == *old(state)),
        final(state).bounty_counter == old(state).bounty_counter,
        final(state).config == old(state).config,
        final(state).events == old(state).events,
        final(state).disburse_escrow_tasks == old(state).disburse_escrow_tasks,
        final(state).swap_cache == old(state).swap_cache,
        final(state).bounty_id_cache == old(state).bounty_id_cache,
        final(state).post_action_queues == old(state).post_action_queues,
{
    match find_bounty_index(state, trigger.bounty_id) {
        Some(i) => {
            state.bounties[i].trigger = Some(trigger.configuration);
            proof {
                assert forall|a: int, b: int|
                    0 <= a < b < state.bounties@.len() implies state.bounties@[a].id
                    < state.bounties@[b].id by {
                    assert(old(state).bounties@[a].id < old(state).bounties@[b].id);
                }
                assert(state.bounties@ =~= old(state).bounties@.update(
                    bounty_index(old(state).bounties@, trigger.bounty_id),
                    (Bounty {
                        trigger: Some(trigger.configuration),
                        ..old(state).bounties@[bounty_index(
                            old(state).bounties@,
                            trigger.bounty_id,
                        )]
                    }),
                ));
            }
            Ok(())
        },
        None => Err(ContractError::BountyNotFound { bounty_id: trigger.bounty_id }),
    }
}

/// Removes the vault's trigger, so that no second execution can begin while
/// one is outstanding.
pub fn delete_trigger(state: &mut State, bounty_id: u128) -> (r: Result<(), ContractError>)
    requires
        old(state).wf(),
    ensures
        final(state).wf(),
        has_bounty(old(state).bounties@, bounty_id) ==> (r == Ok::<(), ContractError>(())
            && final(state).bounties@ == old(state).bounties@.update(
            bounty_index(old(state).bounties@, bounty_id),
            (Bounty {
                trigger: None,
                ..old(state).bounties@[bounty_index(old(state).bounties@, bounty_id)]
            }),
        )),
        !has_bounty(old(state).bounties@, bounty_id) ==> (r == Err::<(), ContractError>(
            ContractError::BountyNotFound { bounty_id },
        ) && *final(state) == *old(state)),
        final(state).bounty_counter == old(state).bounty_counter,
        final(state).config == old(state).config,
        final(state).events == old(state).events,
        final(state).disburse_escrow_tasks == old(state).disburse_escrow_tasks,
        final(state).swap_cache == old(state).swap_cache,
        final(state).bounty_id_cache == old(state).bounty_id_cache,
        final(state).post_action_queues == old(state).post_action_queues,
{
    match find_bounty_index(state, bounty_id) {
        Some(i) => {
            state.bounties[i].trigger = None;
            proof {
                assert forall|a: int, b: int|
                    0 <= a < b < state.bounties@.len() implies state.bounties@[a].id
                    < state.bounties@[b].id by {
                    assert(old(state).bounties@[a].id < old(state).bounties@[b].id);
                }
                assert(state.bounties@ =~= old(state).bounties@.update(
                    bounty_index(old(state).bounties@, bounty_id),
                    (Bounty {
                        trigger: None,
                        ..old(state).bounties@[bounty_index(old(state).bounties@, bounty_id)]
                    }),
                ));
            }
            Ok(())
        },
        None => Err(ContractError::BountyNotFound { bounty_id }),
    }
}

/// The position of the vault's escrow task, if any.
fn find_task_index(state: &State, bounty_id: u128) -> (r: Option<usize>)
    requires
        state.wf(),
    ensures
        match r {
            Some(i) => i < state.disburse_escrow_tasks@.len()
                && state.disburse_escrow_tasks@[i as int].bounty_id == bounty_id && i as int
                == task_index(state.disburse_escrow_tasks@, bounty_id),
            None => !has_task(state.disburse_escrow_tasks@, bounty_id),
        },
{
    let mut i: usize = 0;
    while i < state.disburse_escrow_tasks.len()
        invariant
            state.wf(),
            i <= state.disburse_escrow_tasks@.len(),
            forall|j: int|
                0 <= j < i ==> (#[trigger] state.disburse_escrow_tasks@[j]).bounty_id != bounty_id,
        decreases state.disburse_escrow_tasks@.len() - i,
    {
        if state.disburse_escrow_tasks[i].bounty_id == bounty_id {
            proof {
                let w = task_index(state.disburse_escrow_tasks@, bounty_id);
                assert(state.disburse_escrow_tasks@[i as int].bounty_id == bounty_id);
                assert(has_task(state.disburse_escrow_tasks@, bounty_id));
                if w < i as int {
                    assert(state.disburse_escrow_tasks@[w].bounty_id
                        != state.disburse_escrow_tasks@[i as int].bounty_id);
                }
                if w > i as int {
                    assert(state.disburse_escrow_tasks@[i as int].bounty_id
                        != state.disburse_escrow_tasks@[w].bounty_id);
                }
            }
            return Some(i);
        }
        i = i + 1;
    }
    None
}

/// Schedules (or reschedules) the vault's escrow for disbursement at `due`.
pub fn save_disburse_escrow_task(state: &mut State, bounty_id: u128, due: u64) -> (r: Result<
    (),
    ContractError,
>)
    requires
        old(state).wf(),
    ensures
        final(state).wf(),
        r == Ok::<(), ContractError>(()),
        has_task(final(state).disburse_escrow_tasks@, bounty_id),
        final(state).disburse_escrow_tasks@.last() == (DisburseEscrowTask { bounty_id, due }),
        has_task(old(state).disburse_escrow_tasks@, bounty_id) ==> final(state).disburse_escrow_tasks@
            == old(state).disburse_escrow_tasks@.remove(
            task_index(old(state).disburse_escrow_tasks@, bounty_id),
        ).push(DisburseEscrowTask { bounty_id, due }),
        !has_task(old(state).disburse_escrow_tasks@, bounty_id) ==> final(state).disburse_escrow_tasks@
            == old(state).disburse_escrow_tasks@.push(
            DisburseEscrowTask { bounty_id, due },
        ),
        final(state).bounty_counter == old(state).bounty_counter,
        final(state).config == old(state).config,
        final(state).bounties == old(state).bounties,
        final(state).events == old(state).events,
        final(state).swap_cache == old(state).swap_cache,
        final(state).bounty_id_cache == old(state).bounty_id_cache,
        final(state).post_action_queues == old(state).post_action_queues,
{
    match find_task_index(state, bounty_id) {
        Some(i) => {
            state.disburse_escrow_tasks.remove(i);
            proof {
                assert forall|a: int, b: int|
                    0 <= a < b < state.disburse_escrow_tasks@.len() implies state
                    .disburse_escrow_tasks@[a].bounty_id
                    != state.disburse_escrow_tasks@[b].bounty_id by {
                    let o = old(state).disburse_escrow_tasks@;
                    if b < i as int {
                        assert(o[a].bounty_id != o[b].bounty_id);
                    } else if a >= i as int {
                        assert(o[a + 1].bounty_id != o[b + 1].bounty_id);
                    } else {
                        assert(o[a].bounty_id != o[b + 1].bounty_id);
                    }
                }
                assert forall|j: int|
                    0 <= j < state.disburse_escrow_tasks@.len() implies (
                #[trigger] state.disburse_escrow_tasks@[j]).bounty_id != bounty_id by {
                    let o = old(state).disburse_escrow_tasks@;
                    if j < i as int {
                        assert(o[j].bounty_id != o[i as int].bounty_id);
                    } else {
                        assert(o[j + 1].bounty_id != o[i as int].bounty_id);
                    }
                }
            }
            state.disburse_escrow_tasks.push(DisburseEscrowTask { bounty_id, due });
            proof {
                lemma_tasks_unique_after_push(
                    old(state).disburse_escrow_tasks@.remove(i as int),
                    DisburseEscrowTask { bounty_id, due },
                );
            }
            Ok(())
        },
        None => {
            state.disburse_escrow_tasks.push(DisburseEscrowTask { bounty_id, due });
            proof {
                lemma_tasks_unique_after_push(
                    old(state).disburse_escrow_tasks@,
                    DisburseEscrowTask { bounty_id, due },
                );
            }
            Ok(())
        },
    }
}

proof fn lemma_tasks_unique_after_push(s: Seq<DisburseEscrowTask>, t: DisburseEscrowTask)
    requires
        tasks_unique(s),
        forall|j: int| 0 <= j < s.len() ==> (#[trigger] s[j]).bounty_id != t.bounty_id,
    ensures
        tasks_unique(s.push(t)),
        has_task(s.push(t), t.bounty_id),
{
    let p = s.push(t);
    assert forall|a: int, b: int| 0 <= a < b < p.len() implies p[a].bounty_id
        != p[b].bounty_id by {
        if b < s.len() {
            assert(s[a].bounty_id != s[b].bounty_id);
        } else {
            assert(p[b] == t);
            assert(s[a].bounty_id != t.bounty_id);
        }
    }
    assert(p[s.len() as int] == t);
}

/// When the vault's escrow becomes eligible, if a task records it.
pub fn get_disburse_escrow_task_due_date(state: &State, bounty_id: u128) -> (r: Option<u64>)
    requires
        state.wf(),
    ensures
        has_task(state.disburse_escrow_tasks@, bounty_id) ==> r == Some(
            state.disburse_escrow_tasks@[task_index(state.disburse_escrow_tasks@, bounty_id)].due,
        ),
        !has_task(state.disburse_escrow_tasks@, bounty_id) ==> r == Option::<u64>::None,
{
    match find_task_index(state, bounty_id) {
        Some(i) => Some(state.disburse_escrow_tasks[i].due),
        None => None,
    }
}

/// Drops the vault's escrow task once the escrow is disbursed.
pub fn delete_disburse_escrow_task(state: &mut State, bounty_id: u128) -> (r: Result<
    (),
    ContractError,
>)
    requires
        old(state).wf(),
    ensures
        final(state).wf(),
        r == Ok::<(), ContractError>(()),
        !has_task(final(state).disburse_escrow_tasks@, bounty_id),
        has_task(old(state).disburse_escrow_tasks@, bounty_id) ==> final(state).disburse_escrow_tasks@
            == old(state).disburse_escrow_tasks@.remove(
            task_index(old(state).disburse_escrow_tasks@, bounty_id),
        ),
        !has_task(old(state).disburse_escrow_tasks@, bounty_id) ==> final(state).disburse_escrow_tasks@
            == old(state).disburse_escrow_tasks@,
        final(state).bounty_counter == old(state).bounty_counter,
        final(state).config == old(state).config,
        final(state).bounties == old(state).bounties,
        final(state).events == old(state).events,
        final(state).swap_cache == old(state).swap_cache,
        final(state).bounty_id_cache == old(state).bounty_id_cache,
        final(state).post_action_queues == old(state).post_action_queues,
{
    match find_task_index(state, bounty_id) {
        Some(i) => {
            state.disburse_escrow_tasks.remove(i);
            proof {
                assert forall|a: int, b: int|
                    0 <= a < b < state.disburse_escrow_tasks@.len() implies state
                    .disburse_escrow_tasks@[a].bounty_id
                    != state.disburse_escrow_tasks@[b].bounty_id by {
                    let o = old(state).disburse_escrow_tasks@;
                    if b < i as int {
                        assert(o[a].bounty_id != o[b].bounty_id);
                    } else if a >= i as int {
                        assert(o[a + 1].bounty_id != o[b + 1].bounty_id);
                    } else {
                        assert(o[a].bounty_id != o[b + 1].bounty_id);
                    }
                }
                assert forall|j: int|
                    0 <= j < state.disburse_escrow_tasks@.len() implies (
                #[trigger] state.disburse_escrow_tasks@[j]).bounty_id != bounty_id by {
                    let o = old(state).disburse_escrow_tasks@;
                    if j < i as int {
                        assert(o[j].bounty_id != o[i as int].bounty_id);
                    } else {
                        assert(o[j + 1].bounty_id != o[i as int].bounty_id);
                    }
                }
            }
            Ok(())
        },
        None => Ok(()),
    }
}

/// The position of the vault's action queue, if any.
fn find_queue_index(state: &State, bounty_id: u128) -> (r: Option<usize>)
    requires
        state.wf(),
    ensures
        match r {
            Some(i) => i < state.post_action_queues@.len()
                && state.post_action_queues@[i as int].bounty_id == bounty_id && i as int
                == queue_index(state.post_action_queues@, bounty_id),
            None => !has_queue(state.post_action_queues@, bounty_id),
        },
{
    let mut i: usize = 0;
    while i < state.post_action_queues.len()
        invariant
            state.wf(),
            i <= state.post_action_queues@.len(),
            forall|j: int|
                0 <= j < i ==> (#[trigger] state.post_action_queues@[j]).bounty_id != bounty_id,
        decreases state.post_action_queues@.len() - i,
    {
        if state.post_action_queues[i].bounty_id == bounty_id {
            proof {
                let w = queue_index(state.post_action_queues@, bounty_id);
                assert(state.post_action_queues@[i as int].bounty_id == bounty_id);
                assert(has_queue(state.post_action_queues@, bounty_id));
                if w < i as int {
                    assert(state.post_action_queues@[w].bounty_id
                        != state.post_action_queues@[i as int].bounty_id);
                }
                if w > i as int {
                    assert(state.post_action_queues@[i as int].bounty_id
                        != state.post_action_queues@[w].bounty_id);
                }
            }
            return Some(i);
        }
        i = i + 1;
    }
    None
}

/// How many post-execution actions the vault still has pending.
pub fn queue_len(state: &State, bounty_id: u128) -> (r: usize)
    requires
        state.wf(),
    ensures
        r == queue_entries(state.post_action_queues@, bounty_id).len(),
{
    match find_queue_index(state, bounty_id) {
        Some(i) => state.post_action_queues[i].entries.len(),
        None => 0,
    }
}

/// Appends one pending action to the vault's queue.
pub fn queue_push_entry(
    state: &mut State,
    bounty_id: u128,
    entry: PostExecutionActionCacheEntry,
)
    requires
        old(state).wf(),
    ensures
        final(state).wf(),
        queue_entries(final(state).post_action_queues@, bounty_id) == queue_entries(
            old(state).post_action_queues@,
            bounty_id,
        ).push(entry),
        forall|other: u128|
            other != bounty_id ==> #[trigger] queue_entries(final(state).post_action_queues@, other)
                == queue_entries(old(state).post_action_queues@, other),
        final(state).bounty_counter == old(state).bounty_counter,
        final(state).config == old(state).config,
        final(state).bounties == old(state).bounties,
        final(state).events == old(state).events,
        final(state).disburse_escrow_tasks == old(state).disburse_escrow_tasks,
        final(state).swap_cache == old(state).swap_cache,
        final(state).bounty_id_cache == old(state).bounty_id_cache,
{
    match find_queue_index(state, bounty_id) {
        Some(i) => {
            state.post_action_queues[i].entries.push(entry);
            proof {
                lemma_queue_entries_framed(
                    old(state).post_action_queues@,
                    state.post_action_queues@,
                    i as int,
                    bounty_id,
                );
            }
        },
        None => {
            let ghost o = state.post_action_queues@;
            let mut entries: Vec<PostExecutionActionCacheEntry> = Vec::new();
            entries.push(entry);
            state.post_action_queues.push(PostActionQueue { bounty_id, entries });
            proof {
                let p = state.post_action_queues@;
                assert forall|a: int, b: int| 0 <= a < b < p.len() implies p[a].bounty_id
                    != p[b].bounty_id by {
                    if b < o.len() {
                        assert(o[a].bounty_id != o[b].bounty_id);
                    } else {
                        assert(!has_queue(o, bounty_id));
                        assert(o[a].bounty_id != bounty_id) by {
                            if o[a].bounty_id == bounty_id {
                                assert(has_queue(o, bounty_id));
                            }
                        }
                    }
                }
                assert(p[o.len() as int].bounty_id == bounty_id);
                assert(has_queue(p, bounty_id));
                let w = queue_index(p, bounty_id);
                if w != o.len() as int {
                    assert(p[w].bounty_id == p[o.len() as int].bounty_id);
                    if w < o.len() as int {
                        assert(o[w].bounty_id != bounty_id) by {
                            if o[w].bounty_id == bounty_id {
                                assert(has_queue(o, bounty_id));
                            }
                        }
                    }
                }
                assert(queue_entries(p, bounty_id) =~= queue_entries(o, bounty_id).push(entry));
                assert forall|other: u128|
                    other != bounty_id implies #[trigger] queue_entries(p, other) == queue_entries(
                    o,
                    other,
                ) by {
                    if has_queue(o, other) {
                        let wo = queue_index(o, other);
                        assert(p[wo] == o[wo]);
                        assert(has_queue(p, other));
                        let wp = queue_index(p, other);
                        assert(p[wp].bounty_id == other);
                        if wp == o.len() as int {
                            assert(p[wp].bounty_id == bounty_id);
                        }
                        assert(o[wp].bounty_id == other);
                        if wp != wo {
                            assert(o[wp].bounty_id != o[wo].bounty_id || wp == wo);
                            if wp < wo {
                                assert(o[wp].bounty_id != o[wo].bounty_id);
                            }
                            if wo < wp {
                                assert(o[wo].bounty_id != o[wp].bounty_id);
                            }
                        }
                    } else {
                        if has_queue(p, other) {
                            let wp = queue_index(p, other);
                            if wp < o.len() as int {
                                assert(o[wp].bounty_id == other);
                                assert(has_queue(o, other));
                            } else {
                                assert(p[wp].bounty_id == bounty_id);
                            }
                        }
                    }
                }
            }
        },
    }
}

/// After editing queue `i` in place, every other vault's queue reads as
/// before, and this vault's queue reads as entry `i` now holds.
proof fn lemma_queue_entries_framed(
    o: Seq<PostActionQueue>,
    p: Seq<PostActionQueue>,
    i: int,
    bounty_id: u128,
)
    requires
        queues_unique(o),
        0 <= i < o.len(),
        p.len() == o.len(),
        o[i].bounty_id == bounty_id,
        p[i].bounty_id == bounty_id,
        forall|j: int| 0 <= j < o.len() && j != i ==> p[j] == o[j],
    ensures
        queues_unique(p),
        has_queue(p, bounty_id),
        queue_entries(p, bounty_id) == p[i].entries@,
        queue_entries(o, bounty_id) == o[i].entries@,
        forall|other: u128|
            other != bounty_id ==> #[trigger] queue_entries(p, other) == queue_entries(o, other),
{
    assert forall|a: int, b: int| 0 <= a < b < p.len() implies p[a].bounty_id
        != p[b].bounty_id by {
        assert(o[a].bounty_id != o[b].bounty_id);
        assert(p[a].bounty_id == o[a].bounty_id);
        assert(p[b].bounty_id == o[b].bounty_id);
    }
    assert(has_queue(p, bounty_id));
    assert(has_queue(o, bounty_id));
    let wp = queue_index(p, bounty_id);
    if wp != i {
        if wp < i {
            assert(p[wp].bounty_id != p[i].bounty_id);
        } else {
            assert(p[i].bounty_id != p[wp].bounty_id);
        }
    }
    let wo = queue_index(o, bounty_id);
    if wo != i {
        if wo < i {
            assert(o[wo].bounty_id != o[i].bounty_id);
        } else {
            assert(o[i].bounty_id != o[wo].bounty_id);
        }
    }
    assert forall|other: u128|
        other != bounty_id implies #[trigger] queue_entries(p, other) == queue_entries(
        o,
        other,
    ) by {
        if has_queue(o, other) {
            let w = queue_index(o, other);
            assert(w != i);
            assert(p[w] == o[w]);
            assert(has_queue(p, other));
            let w2 = queue_index(p, other);
            assert(p[w2].bounty_id == other);
            assert(o[w2].bounty_id == p[w2].bounty_id || w2 == i);
            if w2 == i {
                assert(p[w2].bounty_id == bounty_id);
            }
            if w2 != w {
                if w2 < w {
                    assert(o[w2].bounty_id != o[w].bounty_id);
                } else {
                    assert(o[w].bounty_id != o[w2].bounty_id);
                }
            }
        } else {
            if has_queue(p, other) {
                let w2 = queue_index(p, other);
                if w2 == i {
                    assert(p[w2].bounty_id == bounty_id);
                } else {
                    assert(o[w2].bounty_id == other);
                    assert(has_queue(o, other));
                }
            }
        }
    }
}

/// Takes the oldest pending action off the vault's queue, if one is there.
pub fn queue_pop_front(state: &mut State, bounty_id: u128) -> (r: Option<
    PostExecutionActionCacheEntry,
>)
    requires
        old(state).wf(),
    ensures
        final(state).wf(),
        queue_entries(old(state).post_action_queues@, bounty_id).len() == 0 ==> (r == Option::<
            PostExecutionActionCacheEntry,
        >::None && *final(state) == *old(state)),
        queue_entries(old(state).post_action_queues@, bounty_id).len() > 0 ==> (r == Some(
            queue_entries(old(state).post_action_queues@, bounty_id)[0],
        ) && queue_entries(final(state).post_action_queues@, bounty_id) == queue_entries(
            old(state).post_action_queues@,
            bounty_id,
        ).drop_first()),
        forall|other: u128|
            other != bounty_id ==> #[trigger] queue_entries(final(state).post_action_queues@, other)
                == queue_entries(old(state).post_action_queues@, other),
        final(state).bounty_counter == old(state).bounty_counter,
        final(state).config == old(state).config,
        final(state).bounties == old(state).bounties,
        final(state).events == old(state).events,
        final(state).disburse_escrow_tasks == old(state).disburse_escrow_tasks,
        final(state).swap_cache == old(state).swap_cache,
        final(state).bounty_id_cache == old(state).bounty_id_cache,
{
    match find_queue_index(state, bounty_id) {
        Some(i) => {
            if state.post_action_queues[i].entries.len() == 0 {
                return None;
            }
            let entry = state.post_action_queues[i].entries.remove(0);
            proof {
                lemma_queue_entries_framed(
                    old(state).post_action_queues@,
                    state.post_action_queues@,
                    i as int,
                    bounty_id,
                );
                assert(state.post_action_queues@[i as int].entries@
                    =~= old(state).post_action_queues@[i as int].entries@.drop_first());
            }
            Some(entry)
        },
        None => None,
    }
}

} // verus!
