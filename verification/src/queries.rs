//! Paged reads over the store: vaults, events, due tasks and due triggers.

use vstd::prelude::*;
use vstd::seq_lib::*;
use crate::bounty::{bounty_copies, Bounty, BountyStatus};
use crate::event::{event_copies, Event};
use crate::state::{DisburseEscrowTask, State};
use crate::trigger::TriggerConfiguration;

verus! {

/// Whether a vault lies past the paging bound.
pub open spec fn bounty_after(b: Bounty, start_after: Option<u128>) -> bool {
    match start_after {
        Some(s) => b.id > s,
        None => true,
    }
}

/// Whether an event lies past the paging bound.
pub open spec fn event_after(e: Event, start_after: Option<u64>) -> bool {
    match start_after {
        Some(s) => e.id > s,
        None => true,
    }
}

/// Whether an event belongs to the resource asked for.
pub open spec fn event_of_resource(e: Event, resource_id: Option<u128>) -> bool {
    match resource_id {
        Some(rid) => e.resource_id == rid,
        None => true,
    }
}

/// Whether a vault belongs to the owner and status asked for.
pub open spec fn bounty_of_owner(b: Bounty, address: Seq<char>, status: Option<
    BountyStatus,
>) -> bool {
    b.owner@ == address && match status {
        Some(st) => b.status == st,
        None => true,
    }
}

/// `limit` bounded by what is there.
pub open spec fn page_len(lim: int, available: int) -> int {
    if lim <= available {
        lim
    } else {
        available
    }
}

/// Loads a page of vaults in id order: those past `start_after`, at most
/// `limit` of them (the configured default when none is named), from the
/// lowest id up, or from the highest id down when `reverse` is set.
pub fn get_bounties(
    state: &State,
    start_after: Option<u128>,
    limit: Option<u16>,
    reverse: Option<bool>,
) -> (r: Vec<Bounty>)
    requires
        state.wf(),
    ensures
        ({
            let base = if reverse == Some(true) {
                state.bounties@.reverse()
            } else {
                state.bounties@
            };
            let f = base.filter(|b: Bounty| bounty_after(b, start_after));
            let lim = match limit {
                Some(l) => l as int,
                None => state.config.default_page_limit as int,
            };
            r@.len() == page_len(lim, f.len() as int) && (forall|k: int|
                0 <= k < r@.len() ==> bounty_copies(f[k], #[trigger] r@[k]))
        }),
{
    let ghost pred = |b: Bounty| bounty_after(b, start_after);
    let lim: usize = match limit {
        Some(l) => l as usize,
        None => state.config.default_page_limit as usize,
    };
    let rev: bool = match reverse {
        Some(b) => b,
        None => false,
    };
    let n = state.bounties.len();
    let mut out: Vec<Bounty> = Vec::new();
    if !rev {
        let ghost whole = state.bounties@;
        let mut i: usize = 0;
        while i < n && out.len() < lim
            invariant
                n == state.bounties@.len(),
                i <= n,
                out@.len() == page_len(
                    lim as int,
                    state.bounties@.subrange(0, i as int).filter(pred).len() as int,
                ),
                forall|k: int|
                    0 <= k < out@.len() ==> bounty_copies(
                        state.bounties@.subrange(0, i as int).filter(pred)[k],
                        #[trigger] out@[k],
                    ),
                pred == (|b: Bounty| bounty_after(b, start_after)),
            decreases n - i,
        {
            let ghost prefix = state.bounties@.subrange(0, i as int);
            let b = &state.bounties[i];
            let passes = match start_after {
                Some(s) => b.id > s,
                None => true,
            };
            proof {
                let x = state.bounties@[i as int];
                assert(state.bounties@.subrange(0, i as int + 1) =~= prefix.push(x));
                prefix.lemma_filter_push(x, pred);
                assert(pred(x) == passes);
            }
            if passes {
                out.push(b.clone());
            }
            i = i + 1;
        }
        proof {
            let f = whole.filter(pred);
            let prefix = whole.subrange(0, i as int);
            prefix.lemma_filter_monotone(whole, pred);
            if i as int == whole.len() {
                assert(prefix =~= whole);
            } else {
                assert(out@.len() == lim);
            }
        }
    } else {
        let ghost base = state.bounties@.reverse();
        let mut i: usize = n;
        while i > 0 && out.len() < lim
            invariant
                n == state.bounties@.len(),
                i <= n,
                base == state.bounties@.reverse(),
                out@.len() == page_len(
                    lim as int,
                    base.subrange(0, n - i).filter(pred).len() as int,
                ),
                forall|k: int|
                    0 <= k < out@.len() ==> bounty_copies(
                        base.subrange(0, n - i).filter(pred)[k],
                        #[trigger] out@[k],
                    ),
                pred == (|b: Bounty| bounty_after(b, start_after)),
            decreases i,
        {
            let ghost prefix = base.subrange(0, n - i);
            i = i - 1;
            let b = &state.bounties[i];
            let passes = match start_after {
                Some(s) => b.id > s,
                None => true,
            };
            proof {
                let x = state.bounties@[i as int];
                assert(base[n - i - 1] == x);
                assert(base.subrange(0, n - i) =~= prefix.push(x));
                prefix.lemma_filter_push(x, pred);
                assert(pred(x) == passes);
            }
            if passes {
                out.push(b.clone());
            }
        }
        proof {
            let f = base.filter(pred);
            let prefix = base.subrange(0, n - i);
            prefix.lemma_filter_monotone(base, pred);
            if i == 0 {
                assert(prefix =~= base);
            } else {
                assert(out@.len() == lim);
            }
        }
    }
    out
}

/// Loads a page of one owner's vaults in id order, optionally only those in
/// one status: those past `start_after`, at most `limit` of them (the
/// configured default when none is named).
pub fn get_bounties_by_address(
    state: &State,
    address: String,
    status: Option<BountyStatus>,
    start_after: Option<u128>,
    limit: Option<u16>,
) -> (r: Vec<Bounty>)
    requires
        state.wf(),
    ensures
        ({
            let f = state.bounties@.filter(
                |b: Bounty| bounty_of_owner(b, address@, status) && bounty_after(b, start_after),
            );
            let lim = match limit {
                Some(l) => l as int,
                None => state.config.default_page_limit as int,
            };
            r@.len() == page_len(lim, f.len() as int) && (forall|k: int|
                0 <= k < r@.len() ==> bounty_copies(f[k], #[trigger] r@[k]))
        }),
{
    let ghost pred = |b: Bounty| bounty_of_owner(b, address@, status) && bounty_after(
        b,
        start_after,
    );
    let lim: usize = match limit {
        Some(l) => l as usize,
        None => state.config.default_page_limit as usize,
    };
    let n = state.bounties.len();
    let ghost whole = state.bounties@;
    let mut out: Vec<Bounty> = Vec::new();
    let mut i: usize = 0;
    while i < n && out.len() < lim
        invariant
            n == state.bounties@.len(),
            i <= n,
            out@.len() == page_len(
                lim as int,
                state.bounties@.subrange(0, i as int).filter(pred).len() as int,
            ),
            forall|k: int|
                0 <= k < out@.len() ==> bounty_copies(
                    state.bounties@.subrange(0, i as int).filter(pred)[k],
                    #[trigger] out@[k],
                ),
            pred == (|b: Bounty|
                bounty_of_owner(b, address@, status) && bounty_after(b, start_after)),
        decreases n - i,
    {
        let ghost prefix = state.bounties@.subrange(0, i as int);
        let b = &state.bounties[i];
        let owner_ok = b.owner == address && match status {
            Some(st) => b.status == st,
            None => true,
        };
        let passes = owner_ok && match start_after {
            Some(s) => b.id > s,
            None => true,
        };
        proof {
            let x = state.bounties@[i as int];
            assert(state.bounties@.subrange(0, i as int + 1) =~= prefix.push(x));
            prefix.lemma_filter_push(x, pred);
            assert(pred(x) == passes);
        }
        if passes {
            out.push(b.clone());
        }
        i = i + 1;
    }
    proof {
        let prefix = whole.subrange(0, i as int);
        prefix.lemma_filter_monotone(whole, pred);
        if i as int == whole.len() {
            assert(prefix =~= whole);
        } else {
            assert(out@.len() == lim);
        }
    }
    out
}

/// Loads a page of the event log in id order, optionally only one resource's
/// events: those past `start_after`, at most `limit` of them (the configured
/// default when none is named), oldest first, or newest first when `reverse`
/// is set.
pub fn get_events_paged(
    state: &State,
    resource_id: Option<u128>,
    start_after: Option<u64>,
    limit: Option<u16>,
    reverse: Option<bool>,
) -> (r: Vec<Event>)
    requires
        state.wf(),
    ensures
        ({
            let base = if reverse == Some(true) {
                state.events@.reverse()
            } else {
                state.events@
            };
            let f = base.filter(
                |e: Event| event_of_resource(e, resource_id) && event_after(e, start_after),
            );
            let lim = match limit {
                Some(l) => l as int,
                None => state.config.default_page_limit as int,
            };
            r@.len() == page_len(lim, f.len() as int) && (forall|k: int|
                0 <= k < r@.len() ==> event_copies(f[k], #[trigger] r@[k]))
        }),
{
    let ghost pred = |e: Event| event_of_resource(e, resource_id) && event_after(e, start_after);
    let lim: usize = match limit {
        Some(l) => l as usize,
        None => state.config.default_page_limit as usize,
    };
    let rev: bool = match reverse {
        Some(b) => b,
        None => false,
    };
    let n = state.events.len();
    let mut out: Vec<Event> = Vec::new();
    if !rev {
        let ghost whole = state.events@;
        let mut i: usize = 0;
        while i < n && out.len() < lim
            invariant
                n == state.events@.len(),
                i <= n,
                out@.len() == page_len(
                    lim as int,
                    state.events@.subrange(0, i as int).filter(pred).len() as int,
                ),
                forall|k: int|
                    0 <= k < out@.len() ==> event_copies(
                        state.events@.subrange(0, i as int).filter(pred)[k],
                        #[trigger] out@[k],
                    ),
                pred == (|e: Event|
                    event_of_resource(e, resource_id) && event_after(e, start_after)),
            decreases n - i,
        {
            let ghost prefix = state.events@.subrange(0, i as int);
            let e = &state.events[i];
            let resource_ok = match resource_id {
                Some(rid) => e.resource_id == rid,
                None => true,
            };
            let passes = resource_ok && match start_after {
                Some(s) => e.id > s,
                None => true,
            };
            proof {
                let x = state.events@[i as int];
                assert(state.events@.subrange(0, i as int + 1) =~= prefix.push(x));
                prefix.lemma_filter_push(x, pred);
                assert(pred(x) == passes);
            }
            if passes {
                out.push(e.clone());
            }
            i = i + 1;
        }
        proof {
            let prefix = whole.subrange(0, i as int);
            prefix.lemma_filter_monotone(whole, pred);
            if i as int == whole.len() {
                assert(prefix =~= whole);
            } else {
                assert(out@.len() == lim);
            }
        }
    } else {
        let ghost base = state.events@.reverse();
        let mut i: usize = n;
        while i > 0 && out.len() < lim
            invariant
                n == state.events@.len(),
                i <= n,
                base == state.events@.reverse(),
                out@.len() == page_len(
                    lim as int,
                    base.subrange(0, n - i).filter(pred).len() as int,
                ),
                forall|k: int|
                    0 <= k < out@.len() ==> event_copies(
                        base.subrange(0, n - i).filter(pred)[k],
                        #[trigger] out@[k],
                    ),
                pred == (|e: Event|
                    event_of_resource(e, resource_id) && event_after(e, start_after)),
            decreases i,
        {
            let ghost prefix = base.subrange(0, n - i);
            i = i - 1;
            let e = &state.events[i];
            let resource_ok = match resource_id {
                Some(rid) => e.resource_id == rid,
                None => true,
            };
            let passes = resource_ok && match start_after {
                Some(s) => e.id > s,
                None => true,
            };
            proof {
                let x = state.events@[i as int];
                assert(base[n - i - 1] == x);
                assert(base.subrange(0, n - i) =~= prefix.push(x));
                prefix.lemma_filter_push(x, pred);
                assert(pred(x) == passes);
            }
            if passes {
                out.push(e.clone());
            }
        }
        proof {
            let prefix = base.subrange(0, n - i);
            prefix.lemma_filter_monotone(base, pred);
            if i == 0 {
                assert(prefix =~= base);
            } else {
                assert(out@.len() == lim);
            }
        }
    }
    out
}

/// Whether a task has come due by `now`.
pub open spec fn task_due(t: DisburseEscrowTask, now: u64) -> bool {
    t.due <= now
}

/// The vaults whose escrow tasks have come due by `due_before`, at most
/// `limit` of them (the configured default when none is named), in store
/// order.
pub fn get_disburse_escrow_tasks(state: &State, due_before: u64, limit: Option<u16>) -> (r: Vec<
    u128,
>)
    requires
        state.wf(),
    ensures
        ({
            let f = state.disburse_escrow_tasks@.filter(|t: DisburseEscrowTask| task_due(t, due_before));
            let lim = match limit {
                Some(l) => l as int,
                None => state.config.default_page_limit as int,
            };
            r@.len() == page_len(lim, f.len() as int) && (forall|k: int|
                0 <= k < r@.len() ==> #[trigger] r@[k] == f[k].bounty_id)
        }),
{
    let ghost pred = |t: DisburseEscrowTask| task_due(t, due_before);
    let lim: usize = match limit {
        Some(l) => l as usize,
        None => state.config.default_page_limit as usize,
    };
    let n = state.disburse_escrow_tasks.len();
    let ghost whole = state.disburse_escrow_tasks@;
    let mut out: Vec<u128> = Vec::new();
    let mut i: usize = 0;
    while i < n && out.len() < lim
        invariant
            n == state.disburse_escrow_tasks@.len(),
            i <= n,
            out@.len() == page_len(
                lim as int,
                state.disburse_escrow_tasks@.subrange(0, i as int).filter(pred).len() as int,
            ),
            forall|k: int|
                0 <= k < out@.len() ==> #[trigger] out@[k] == state.disburse_escrow_tasks@.subrange(
                    0,
                    i as int,
                ).filter(pred)[k].bounty_id,
            pred == (|t: DisburseEscrowTask| task_due(t, due_before)),
        decreases n - i,
    {
        let ghost prefix = state.disburse_escrow_tasks@.subrange(0, i as int);
        let t = state.disburse_escrow_tasks[i];
        let passes = t.due <= due_before;
        proof {
            let x = state.disburse_escrow_tasks@[i as int];
            assert(state.disburse_escrow_tasks@.subrange(0, i as int + 1) =~= prefix.push(x));
            prefix.lemma_filter_push(x, pred);
            assert(pred(x) == passes);
        }
        if passes {
            out.push(t.bounty_id);
        }
        i = i + 1;
    }
    proof {
        let prefix = whole.subrange(0, i as int);
        prefix.lemma_filter_monotone(whole, pred);
        if i as int == whole.len() {
            assert(prefix =~= whole);
        } else {
            assert(out@.len() == lim);
        }
    }
    out
}

/// Whether a vault's time trigger has come due by `now`.
pub open spec fn trigger_due(b: Bounty, now: u64) -> bool {
    match b.trigger {
        Some(TriggerConfiguration::Time { target_time }) => target_time <= now,
        _ => false,
    }
}

/// The vaults whose time triggers have come due by `now`, at most `limit` of
/// them (the configured default when none is named), in id order.
pub fn get_time_trigger_ids(state: &State, now: u64, limit: Option<u16>) -> (r: Vec<u128>)
    requires
        state.wf(),
    ensures
        ({
            let f = state.bounties@.filter(|b: Bounty| trigger_due(b, now));
            let lim = match limit {
                Some(l) => l as int,
                None => state.config.default_page_limit as int,
            };
            r@.len() == page_len(lim, f.len() as int) && (forall|k: int|
                0 <= k < r@.len() ==> #[trigger] r@[k] == f[k].id)
        }),
{
    let ghost pred = |b: Bounty| trigger_due(b, now);
    let lim: usize = match limit {
        Some(l) => l as usize,
        None => state.config.default_page_limit as usize,
    };
    let n = state.bounties.len();
    let ghost whole = state.bounties@;
    let mut out: Vec<u128> = Vec::new();
    let mut i: usize = 0;
    while i < n && out.len() < lim
        invariant
            n == state.bounties@.len(),
            i <= n,
            out@.len() == page_len(
                lim as int,
                state.bounties@.subrange(0, i as int).filter(pred).len() as int,
            ),
            forall|k: int|
                0 <= k < out@.len() ==> #[trigger] out@[k] == state.bounties@.subrange(
                    0,
                    i as int,
                ).filter(pred)[k].id,
            pred == (|b: Bounty| trigger_due(b, now)),
        decreases n - i,
    {
        let ghost prefix = state.bounties@.subrange(0, i as int);
        let b = &state.bounties[i];
        let passes = match b.trigger {
            Some(TriggerConfiguration::Time { target_time }) => target_time <= now,
            _ => false,
        };
        proof {
            let x = state.bounties@[i as int];
            assert(state.bounties@.subrange(0, i as int + 1) =~= prefix.push(x));
            prefix.lemma_filter_push(x, pred);
            assert(pred(x) == passes);
        }
        if passes {
            out.push(b.id);
        }
        i = i + 1;
    }
    proof {
        let prefix = whole.subrange(0, i as int);
        prefix.lemma_filter_monotone(whole, pred);
        if i as int == whole.len() {
            assert(prefix =~= whole);
        } else {
            assert(out@.len() == lim);
        }
    }
    out
}

} // verus!
