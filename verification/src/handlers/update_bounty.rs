//! Updating a vault's mutable fields.
//!
//! Every requested change is validated before anything is written: an update
//! that fails leaves the vault exactly as it was. A swap-amount change
//! rescales the minimum receive amount and a weighted-scale base alongside
//! it, and therefore cannot be combined with changing either directly. Every
//! applied change is put on the record as a before/after pair.

use vstd::prelude::*;
use crate::bounty::{Bounty, BountyStatus};
use crate::destination::{clone_destinations, Destination};
use crate::error::ContractError;
use crate::event::{BlockInfo, EventBuilder, EventData, Update};
use crate::math::{mul_floor_spec, mul_ratio_u128, ratio_floor, Decimal, MathError, DECIMAL_FRACTIONAL};
use crate::msg::MessageInfo;
use crate::msgs::Response;
use crate::state::{bounty_at, bounty_index, create_event, find_bounty_index, has_bounty, State};
use crate::strategy::{SwapAdjustmentStrategy, SwapAdjustmentStrategyParams};
use crate::time::{
    get_next_target_time, interval_seconds_spec, interval_valid_spec, next_fire_spec, TimeInterval,
};
use crate::trigger::TriggerConfiguration;
use crate::validation::{allocation_total, MAX_DESTINATIONS, MAX_LABEL_LENGTH};

verus! {

/// The rescaling fraction a swap-amount change applies: `new / old`, to
/// eighteen decimal places.
pub open spec fn scale_ratio_spec(new_swap: u128, old_swap: u128) -> int {
    ratio_floor(new_swap as int, DECIMAL_FRACTIONAL as int, old_swap as int)
}

/// An amount rescaled by the swap-amount change.
pub open spec fn rescaled_spec(amount: u128, new_swap: u128, old_swap: u128) -> int {
    mul_floor_spec(amount as int, scale_ratio_spec(new_swap, old_swap))
}

/// The destination list an update ends with: the given one, or the owner
/// alone when the given list is empty.
pub open spec fn new_dests_view(b: Bounty, destinations: Option<Vec<Destination>>) -> Seq<
    Destination,
> {
    match destinations {
        None => b.destinations@,
        Some(v) => {
            if v@.len() == 0 {
                seq![
                    Destination {
                        address: b.owner,
                        allocation: Decimal { atomics: DECIMAL_FRACTIONAL },
                        msg: None,
                    },
                ]
            } else {
                v@
            }
        },
    }
}

/// Whether the rescaling arithmetic of a swap-amount change stays within
/// 128 bits.
pub open spec fn rescale_fits(b: Bounty, new_swap: u128) -> bool {
    &&& scale_ratio_spec(new_swap, b.swap_amount) <= u128::MAX
    &&& (match b.minimum_receive_amount {
        Some(min) => rescaled_spec(min, new_swap, b.swap_amount) <= u128::MAX,
        None => true,
    })
    &&& (match b.swap_adjustment_strategy {
        Some(SwapAdjustmentStrategy::WeightedScale { base_receive_amount, .. }) => rescaled_spec(
            base_receive_amount,
            new_swap,
            b.swap_amount,
        ) <= u128::MAX,
        _ => true,
    })
}

/// Why the requested changes themselves are rejected, in the order the
/// checks run.
pub open spec fn plan_checks(
    b: Bounty,
    label: Option<String>,
    destinations: Option<Vec<Destination>>,
    slippage_tolerance: Option<Decimal>,
    minimum_receive_amount: Option<u128>,
    time_interval: Option<TimeInterval>,
    swap_adjustment_strategy: Option<SwapAdjustmentStrategyParams>,
    swap_amount: Option<u128>,
) -> Option<ContractError> {
    if swap_amount is Some && minimum_receive_amount is Some {
        Some(ContractError::SwapAmountWithMinimumReceive)
    } else if swap_amount is Some && swap_adjustment_strategy is Some {
        Some(ContractError::SwapAmountWithStrategy)
    } else if swap_amount == Some(0u128) {
        Some(ContractError::ZeroSwapAmount)
    } else if swap_amount is Some && !rescale_fits(b, swap_amount->0) {
        Some(ContractError::Math { error: MathError::Overflow })
    } else if label is Some && label->0@.len() > MAX_LABEL_LENGTH {
        Some(ContractError::LabelTooLong)
    } else if destinations is Some && new_dests_view(b, destinations).len() > MAX_DESTINATIONS {
        Some(ContractError::TooManyDestinations)
    } else if destinations is Some && exists|i: int|
        0 <= i < new_dests_view(b, destinations).len() && (#[trigger] new_dests_view(
            b,
            destinations,
        )[i]).allocation.atomics == 0 {
        Some(ContractError::ZeroAllocation)
    } else if destinations is Some && allocation_total(new_dests_view(b, destinations))
        != DECIMAL_FRACTIONAL {
        Some(ContractError::AllocationsNotOne)
    } else if slippage_tolerance is Some && slippage_tolerance->0.atomics > DECIMAL_FRACTIONAL {
        Some(ContractError::SlippageToleranceTooHigh)
    } else if time_interval is Some && !interval_valid_spec(time_interval->0) {
        Some(ContractError::IntervalTooSmall)
    } else if swap_adjustment_strategy is Some {
        match (swap_adjustment_strategy->0, b.swap_adjustment_strategy) {
            (
                SwapAdjustmentStrategyParams::WeightedScale { multiplier, .. },
                Some(SwapAdjustmentStrategy::WeightedScale { .. }),
            ) => {
                if multiplier.atomics > 10 * DECIMAL_FRACTIONAL {
                    Some(ContractError::MultiplierTooHigh)
                } else {
                    None
                }
            },
            _ => Some(ContractError::StrategyChangeInvalid),
        }
    } else {
        None
    }
}

/// Why an update is rejected, in the order the checks run.
pub open spec fn update_checks(
    s: State,
    info: MessageInfo,
    bounty_id: u128,
    label: Option<String>,
    destinations: Option<Vec<Destination>>,
    slippage_tolerance: Option<Decimal>,
    minimum_receive_amount: Option<u128>,
    time_interval: Option<TimeInterval>,
    swap_adjustment_strategy: Option<SwapAdjustmentStrategyParams>,
    swap_amount: Option<u128>,
) -> Option<ContractError> {
    if !has_bounty(s.bounties@, bounty_id) {
        Some(ContractError::BountyNotFound { bounty_id })
    } else {
        let b = bounty_at(s.bounties@, bounty_id);
        if info.sender@ != b.owner@ {
            Some(ContractError::Unauthorized)
        } else if b.status == BountyStatus::Cancelled {
            Some(ContractError::BountyCancelled)
        } else {
            plan_checks(
                b,
                label,
                destinations,
                slippage_tolerance,
                minimum_receive_amount,
                time_interval,
                swap_adjustment_strategy,
                swap_amount,
            )
        }
    }
}

/// The vault's minimum receive amount after the update.
pub open spec fn new_min_receive(b: Bounty, minimum_receive_amount: Option<u128>, swap_amount: Option<u128>) -> Option<u128> {
    if swap_amount is Some && b.minimum_receive_amount is Some {
        Some(rescaled_spec(b.minimum_receive_amount->0, swap_amount->0, b.swap_amount) as u128)
    } else if minimum_receive_amount is Some {
        minimum_receive_amount
    } else {
        b.minimum_receive_amount
    }
}

/// The vault's swap-adjustment rule after the update.
pub open spec fn new_strategy(
    b: Bounty,
    swap_adjustment_strategy: Option<SwapAdjustmentStrategyParams>,
    swap_amount: Option<u128>,
) -> Option<SwapAdjustmentStrategy> {
    match b.swap_adjustment_strategy {
        Some(
            SwapAdjustmentStrategy::WeightedScale { base_receive_amount, multiplier, increase_only },
        ) => {
            if swap_amount is Some {
                Some(
                    SwapAdjustmentStrategy::WeightedScale {
                        base_receive_amount: rescaled_spec(
                            base_receive_amount,
                            swap_amount->0,
                            b.swap_amount,
                        ) as u128,
                        multiplier,
                        increase_only,
                    },
                )
            } else {
                match swap_adjustment_strategy {
                    Some(
                        SwapAdjustmentStrategyParams::WeightedScale {
                            base_receive_amount: nb,
                            multiplier: nm,
                            increase_only: ni,
                        },
                    ) => Some(
                        SwapAdjustmentStrategy::WeightedScale {
                            base_receive_amount: nb,
                            multiplier: nm,
                            increase_only: ni,
                        },
                    ),
                    _ => b.swap_adjustment_strategy,
                }
            }
        },
        _ => b.swap_adjustment_strategy,
    }
}

/// The vault's trigger after the update: replaced on the fresh grid when the
/// interval changes and a trigger exists.
pub open spec fn new_trigger(b: Bounty, time_interval: Option<TimeInterval>, now: u64) -> Option<
    TriggerConfiguration,
> {
    if time_interval is Some && b.trigger is Some {
        Some(
            TriggerConfiguration::Time {
                target_time: next_fire_spec(
                    now as int,
                    (match b.started_at {
                        Some(t) => t,
                        None => now,
                    }) as int,
                    time_interval->0,
                ) as u64,
            },
        )
    } else {
        b.trigger
    }
}

/// Whether `nb` is the vault after the requested update.
pub open spec fn updated_bounty_matches(
    b: Bounty,
    label: Option<String>,
    destinations: Option<Vec<Destination>>,
    slippage_tolerance: Option<Decimal>,
    minimum_receive_amount: Option<u128>,
    time_interval: Option<TimeInterval>,
    swap_adjustment_strategy: Option<SwapAdjustmentStrategyParams>,
    swap_amount: Option<u128>,
    now: u64,
    nb: Bounty,
) -> bool {
    &&& nb.id == b.id
    &&& nb.created_at == b.created_at
    &&& nb.started_at == b.started_at
    &&& nb.owner == b.owner
    &&& nb.label == (match label {
        Some(l) => Some(l),
        None => b.label,
    })
    &&& nb.destinations@ == new_dests_view(b, destinations)
    &&& nb.status == b.status
    &&& nb.balance == b.balance
    &&& nb.target_denom == b.target_denom
    &&& nb.route == b.route
    &&& nb.swap_amount == (match swap_amount {
        Some(sa) => sa,
        None => b.swap_amount,
    })
    &&& nb.slippage_tolerance == (match slippage_tolerance {
        Some(st) => st,
        None => b.slippage_tolerance,
    })
    &&& nb.minimum_receive_amount == new_min_receive(b, minimum_receive_amount, swap_amount)
    &&& nb.time_interval == (match time_interval {
        Some(ti) => ti,
        None => b.time_interval,
    })
    &&& nb.escrow_level == b.escrow_level
    &&& nb.deposited_amount == b.deposited_amount
    &&& nb.swapped_amount == b.swapped_amount
    &&& nb.received_amount == b.received_amount
    &&& nb.escrowed_amount == b.escrowed_amount
    &&& nb.performance_assessment_strategy == b.performance_assessment_strategy
    &&& nb.swap_adjustment_strategy == new_strategy(b, swap_adjustment_strategy, swap_amount)
    &&& nb.trigger == new_trigger(b, time_interval, now)
}

/// How many before/after pairs the update puts on the record.
pub open spec fn updates_len(
    b: Bounty,
    label: Option<String>,
    destinations: Option<Vec<Destination>>,
    slippage_tolerance: Option<Decimal>,
    minimum_receive_amount: Option<u128>,
    time_interval: Option<TimeInterval>,
    swap_adjustment_strategy: Option<SwapAdjustmentStrategyParams>,
    swap_amount: Option<u128>,
) -> int {
    (if swap_amount is Some && b.minimum_receive_amount is Some {
        1int
    } else {
        0
    }) + (if swap_amount is Some && b.swap_adjustment_strategy matches Some(
        SwapAdjustmentStrategy::WeightedScale { .. },
    ) {
        1int
    } else {
        0
    }) + (if swap_amount is Some {
        1int
    } else {
        0
    }) + (if label is Some {
        1int
    } else {
        0
    }) + (if destinations is Some {
        1int
    } else {
        0
    }) + (if slippage_tolerance is Some {
        1int
    } else {
        0
    }) + (if minimum_receive_amount is Some {
        1int
    } else {
        0
    }) + (if time_interval is Some {
        1int
    } else {
        0
    }) + (if time_interval is Some && b.trigger is Some {
        1int
    } else {
        0
    }) + (if swap_adjustment_strategy is Some {
        1int
    } else {
        0
    })
}

/// Whether `v` records exactly the applied changes, in the order they are
/// applied: the swap-amount block first (the rescaled minimum receive
/// amount, the rescaled weighted-scale base, then the amount itself), then
/// label, destinations, slippage tolerance, minimum receive amount,
/// interval, the replaced trigger, and a strategy change last.
#[verifier::opaque]
pub open spec fn updates_match(
    b: Bounty,
    label: Option<String>,
    destinations: Option<Vec<Destination>>,
    slippage_tolerance: Option<Decimal>,
    minimum_receive_amount: Option<u128>,
    time_interval: Option<TimeInterval>,
    swap_adjustment_strategy: Option<SwapAdjustmentStrategyParams>,
    swap_amount: Option<u128>,
    now: u64,
    v: Seq<Update>,
) -> bool {
    let c1 = swap_amount is Some && b.minimum_receive_amount is Some;
    let c2 = swap_amount is Some && b.swap_adjustment_strategy matches Some(
        SwapAdjustmentStrategy::WeightedScale { .. },
    );
    let c3 = swap_amount is Some;
    let c4 = label is Some;
    let c5 = destinations is Some;
    let c6 = slippage_tolerance is Some;
    let c7 = minimum_receive_amount is Some;
    let c8 = time_interval is Some;
    let c9 = time_interval is Some && b.trigger is Some;
    let c10 = swap_adjustment_strategy is Some;
    let i1 = 0int;
    let i2 = i1 + (if c1 { 1int } else { 0 });
    let i3 = i2 + (if c2 { 1int } else { 0 });
    let i4 = i3 + (if c3 { 1int } else { 0 });
    let i5 = i4 + (if c4 { 1int } else { 0 });
    let i6 = i5 + (if c5 { 1int } else { 0 });
    let i7 = i6 + (if c6 { 1int } else { 0 });
    let i8 = i7 + (if c7 { 1int } else { 0 });
    let i9 = i8 + (if c8 { 1int } else { 0 });
    let i10 = i9 + (if c9 { 1int } else { 0 });
    &&& v.len() == updates_len(
        b,
        label,
        destinations,
        slippage_tolerance,
        minimum_receive_amount,
        time_interval,
        swap_adjustment_strategy,
        swap_amount,
    )
    &&& c1 ==> v[i1] == (Update::MinimumReceiveAmount {
        old_value: b.minimum_receive_amount,
        new_value: new_min_receive(b, minimum_receive_amount, swap_amount),
    })
    &&& c2 ==> v[i2] == (Update::Strategy {
        old_value: b.swap_adjustment_strategy,
        new_value: new_strategy(b, swap_adjustment_strategy, swap_amount),
    })
    &&& c3 ==> v[i3] == (Update::SwapAmount { old_value: b.swap_amount, new_value: swap_amount->0 })
    &&& c4 ==> v[i4] == (Update::Label { old_value: b.label, new_value: label->0 })
    &&& c5 ==> (v[i5] matches Update::Destinations { old_value, new_value }
        && old_value@ == b.destinations@ && new_value@ == new_dests_view(b, destinations))
    &&& c6 ==> v[i6] == (Update::SlippageTolerance {
        old_value: b.slippage_tolerance,
        new_value: slippage_tolerance->0,
    })
    &&& c7 ==> v[i7] == (Update::MinimumReceiveAmount {
        old_value: b.minimum_receive_amount,
        new_value: minimum_receive_amount,
    })
    &&& c8 ==> v[i8] == (Update::Interval {
        old_value: b.time_interval,
        new_value: time_interval->0,
    })
    &&& c9 ==> v[i9] == (Update::Trigger {
        old_value: b.trigger->0,
        new_value: new_trigger(b, time_interval, now)->0,
    })
    &&& c10 ==> v[i10] == (Update::Strategy {
        old_value: b.swap_adjustment_strategy,
        new_value: new_strategy(b, swap_adjustment_strategy, swap_amount),
    })
}

/// The recorded changes match once every entry stands at its place.
#[verifier::rlimit(100)]
proof fn lemma_updates_match(
    b: Bounty,
    label: Option<String>,
    destinations: Option<Vec<Destination>>,
    slippage_tolerance: Option<Decimal>,
    minimum_receive_amount: Option<u128>,
    time_interval: Option<TimeInterval>,
    swap_adjustment_strategy: Option<SwapAdjustmentStrategyParams>,
    swap_amount: Option<u128>,
    now: u64,
    v: Seq<Update>,
)
    requires
        ({
            let c1 = swap_amount is Some && b.minimum_receive_amount is Some;
            let c2 = swap_amount is Some && b.swap_adjustment_strategy matches Some(
                SwapAdjustmentStrategy::WeightedScale { .. },
            );
            let c3 = swap_amount is Some;
            let c4 = label is Some;
            let c5 = destinations is Some;
            let c6 = slippage_tolerance is Some;
            let c7 = minimum_receive_amount is Some;
            let c8 = time_interval is Some;
            let c9 = time_interval is Some && b.trigger is Some;
            let c10 = swap_adjustment_strategy is Some;
            let i1 = 0int;
            let i2 = i1 + (if c1 { 1int } else { 0 });
            let i3 = i2 + (if c2 { 1int } else { 0 });
            let i4 = i3 + (if c3 { 1int } else { 0 });
            let i5 = i4 + (if c4 { 1int } else { 0 });
            let i6 = i5 + (if c5 { 1int } else { 0 });
            let i7 = i6 + (if c6 { 1int } else { 0 });
            let i8 = i7 + (if c7 { 1int } else { 0 });
            let i9 = i8 + (if c8 { 1int } else { 0 });
            let i10 = i9 + (if c9 { 1int } else { 0 });
            &&& v.len() == i10 + (if c10 { 1int } else { 0 })
            &&& c1 ==> v[i1] == (Update::MinimumReceiveAmount {
                old_value: b.minimum_receive_amount,
                new_value: new_min_receive(b, minimum_receive_amount, swap_amount),
            })
            &&& c2 ==> v[i2] == (Update::Strategy {
                old_value: b.swap_adjustment_strategy,
                new_value: new_strategy(b, swap_adjustment_strategy, swap_amount),
            })
            &&& c3 ==> v[i3] == (Update::SwapAmount {
                old_value: b.swap_amount,
                new_value: swap_amount->0,
            })
            &&& c4 ==> v[i4] == (Update::Label { old_value: b.label, new_value: label->0 })
            &&& c5 ==> (v[i5] matches Update::Destinations { old_value, new_value }
                && old_value@ == b.destinations@ && new_value@ == new_dests_view(b, destinations))
            &&& c6 ==> v[i6] == (Update::SlippageTolerance {
                old_value: b.slippage_tolerance,
                new_value: slippage_tolerance->0,
            })
            &&& c7 ==> v[i7] == (Update::MinimumReceiveAmount {
                old_value: b.minimum_receive_amount,
                new_value: minimum_receive_amount,
            })
            &&& c8 ==> v[i8] == (Update::Interval {
                old_value: b.time_interval,
                new_value: time_interval->0,
            })
            &&& c9 ==> v[i9] == (Update::Trigger {
                old_value: b.trigger->0,
                new_value: new_trigger(b, time_interval, now)->0,
            })
            &&& c10 ==> v[i10] == (Update::Strategy {
                old_value: b.swap_adjustment_strategy,
                new_value: new_strategy(b, swap_adjustment_strategy, swap_amount),
            })
        }),
    ensures
        updates_match(
            b,
            label,
            destinations,
            slippage_tolerance,
            minimum_receive_amount,
            time_interval,
            swap_adjustment_strategy,
            swap_amount,
            now,
            v,
        ),
{
    reveal(updates_match);
}

/// Whether the appended event records exactly the applied changes.
pub open spec fn is_updated_event(
    data: EventData,
    b: Bounty,
    label: Option<String>,
    destinations: Option<Vec<Destination>>,
    slippage_tolerance: Option<Decimal>,
    minimum_receive_amount: Option<u128>,
    time_interval: Option<TimeInterval>,
    swap_adjustment_strategy: Option<SwapAdjustmentStrategyParams>,
    swap_amount: Option<u128>,
    now: u64,
) -> bool {
    data matches EventData::BountyUpdated { updates } && updates_match(
        b,
        label,
        destinations,
        slippage_tolerance,
        minimum_receive_amount,
        time_interval,
        swap_adjustment_strategy,
        swap_amount,
        now,
        updates@,
    )
}

/// Validates and computes a swap-amount change: the rescaled minimum
/// receive amount and weighted-scale base, and their before/after records.
fn plan_swap_amount(b: &Bounty, sa: u128, updates: &mut Vec<Update>) -> (r: Result<
    (u128, Option<u128>, Option<SwapAdjustmentStrategy>),
    ContractError,
>)
    requires
        b.swap_amount > 0,
        old(updates)@.len() == 0,
    ensures
        ({
            let checks: Option<ContractError> = if sa == 0 {
                Some(ContractError::ZeroSwapAmount)
            } else if !rescale_fits(*b, sa) {
                Some(ContractError::Math { error: MathError::Overflow })
            } else {
                None
            };
            match checks {
                Some(e) => r == Err::<(u128, Option<u128>, Option<SwapAdjustmentStrategy>), ContractError>(e),
                None => r matches Ok(t) && ({
                    let c1 = b.minimum_receive_amount is Some;
                    let c2 = b.swap_adjustment_strategy matches Some(
                        SwapAdjustmentStrategy::WeightedScale { .. },
                    );
                    &&& t.0 == sa
                    &&& t.1 == new_min_receive(*b, None, Some(sa))
                    &&& t.2 == new_strategy(*b, None, Some(sa))
                    &&& final(updates)@.len() == (if c1 { 1int } else { 0 }) + (if c2 { 1int } else { 0 }) + 1
                    &&& (c1 ==> final(updates)@[0] == (Update::MinimumReceiveAmount {
                        old_value: b.minimum_receive_amount,
                        new_value: new_min_receive(*b, None, Some(sa)),
                    }))
                    &&& (c2 ==> final(updates)@[if c1 { 1int } else { 0 }] == (Update::Strategy {
                        old_value: b.swap_adjustment_strategy,
                        new_value: new_strategy(*b, None, Some(sa)),
                    }))
                    &&& final(updates)@.last() == (Update::SwapAmount {
                        old_value: b.swap_amount,
                        new_value: sa,
                    })
                }),
            }
        }),
        r is Err ==> final(updates)@ == old(updates)@,
{
    if sa == 0 {
        return Err(ContractError::ZeroSwapAmount);
    }
    let old_swap = b.swap_amount;
    let ratio = match mul_ratio_u128(sa, crate::math::DECIMAL_FRACTIONAL, old_swap) {
        Ok(v) => v,
        Err(_) => {
            return Err(ContractError::Math { error: MathError::Overflow });
        },
    };
    let mut new_min: Option<u128> = b.minimum_receive_amount;
    let mut new_strat: Option<SwapAdjustmentStrategy> = b.swap_adjustment_strategy;
    let scaled_min: Option<u128> = match b.minimum_receive_amount {
        Some(min) => {
            match mul_ratio_u128(min, ratio, crate::math::DECIMAL_FRACTIONAL) {
                Ok(v) => Some(v),
                Err(_) => {
                    return Err(ContractError::Math { error: MathError::Overflow });
                },
            }
        },
        None => None,
    };
    let scaled_base: Option<u128> = match b.swap_adjustment_strategy {
        Some(SwapAdjustmentStrategy::WeightedScale { base_receive_amount, .. }) => {
            match mul_ratio_u128(base_receive_amount, ratio, crate::math::DECIMAL_FRACTIONAL) {
                Ok(v) => Some(v),
                Err(_) => {
                    return Err(ContractError::Math { error: MathError::Overflow });
                },
            }
        },
        _ => None,
    };
    match scaled_min {
        Some(scaled) => {
            new_min = Some(scaled);
            updates.push(
                Update::MinimumReceiveAmount {
                    old_value: b.minimum_receive_amount,
                    new_value: Some(scaled),
                },
            );
        },
        None => {},
    }
    match b.swap_adjustment_strategy {
        Some(
            SwapAdjustmentStrategy::WeightedScale { base_receive_amount, multiplier, increase_only },
        ) => {
            let ns = SwapAdjustmentStrategy::WeightedScale {
                base_receive_amount: match scaled_base {
                    Some(v) => v,
                    None => base_receive_amount,
                },
                multiplier,
                increase_only,
            };
            new_strat = Some(ns);
            updates.push(
                Update::Strategy { old_value: b.swap_adjustment_strategy, new_value: Some(ns) },
            );
        },
        _ => {},
    }
    updates.push(Update::SwapAmount { old_value: old_swap, new_value: sa });
    Ok((sa, new_min, new_strat))
}

/// The computed outcome of a valid update, ready to be written.
pub struct UpdatePlan {
    pub new_swap: u128,
    pub new_min: Option<u128>,
    pub new_strat: Option<SwapAdjustmentStrategy>,
    pub new_label: Option<String>,
    pub new_destinations: Option<Vec<Destination>>,
    pub new_trigger: Option<TriggerConfiguration>,
    pub updates: Vec<Update>,
}

/// Validates the given destination list (the owner alone when it is empty)
/// and records the change.
fn plan_destinations(b: &Bounty, given: &Vec<Destination>, updates: &mut Vec<Update>) -> (r:
    Result<Vec<Destination>, ContractError>)
    ensures
        ({
            let nd = new_dests_view(*b, Some(*given));
            let checks: Option<ContractError> = if nd.len() > MAX_DESTINATIONS {
                Some(ContractError::TooManyDestinations)
            } else if exists|i: int|
                0 <= i < nd.len() && (#[trigger] nd[i]).allocation.atomics == 0 {
                Some(ContractError::ZeroAllocation)
            } else if allocation_total(nd) != DECIMAL_FRACTIONAL {
                Some(ContractError::AllocationsNotOne)
            } else {
                None
            };
            match checks {
                Some(e) => r == Err::<Vec<Destination>, ContractError>(e) && final(updates)@
                    == old(updates)@,
                None => r matches Ok(d) && d@ == nd && final(updates)@ == old(updates)@.push(
                    final(updates)@.last(),
                ) && (final(updates)@.last() matches Update::Destinations {
                    old_value,
                    new_value,
                } && old_value@ == b.destinations@ && new_value@ == nd),
            }
        }),
{
    let mut effective: Vec<Destination> = clone_destinations(given);
    if effective.len() == 0 {
        effective.push(
            Destination {
                address: b.owner.clone(),
                allocation: Decimal::percent(100),
                msg: None,
            },
        );
    }
    proof {
        assert(effective@ =~= new_dests_view(*b, Some(*given)));
    }
    match crate::validation::assert_destinations_limit_is_not_breached(&effective) {
        Ok(_) => {},
        Err(e) => {
            return Err(e);
        },
    }
    match crate::validation::assert_no_destination_allocations_are_zero(&effective) {
        Ok(_) => {},
        Err(e) => {
            return Err(e);
        },
    }
    match crate::validation::assert_destination_allocations_add_up_to_one(&effective) {
        Ok(_) => {},
        Err(e) => {
            return Err(e);
        },
    }
    updates.push(
        Update::Destinations {
            old_value: clone_destinations(&b.destinations),
            new_value: clone_destinations(&effective),
        },
    );
    Ok(effective)
}

/// Validates the requested changes against the vault and computes what they
/// turn into, together with the before/after record.
#[verifier::rlimit(100)]
#[verifier::spinoff_prover]
fn plan_update(
    b: &Bounty,
    block: BlockInfo,
    label: Option<String>,
    destinations: Option<Vec<Destination>>,
    slippage_tolerance: Option<Decimal>,
    minimum_receive_amount: Option<u128>,
    time_interval: Option<TimeInterval>,
    swap_adjustment_strategy: Option<SwapAdjustmentStrategyParams>,
    swap_amount: Option<u128>,
) -> (r: Result<UpdatePlan, ContractError>)
    requires
        b.swap_amount > 0,
        interval_seconds_spec(b.time_interval) >= 1,
    ensures
        match plan_checks(
            *b,
            label,
            destinations,
            slippage_tolerance,
            minimum_receive_amount,
            time_interval,
            swap_adjustment_strategy,
            swap_amount,
        ) {
            Some(e) => r == Err::<UpdatePlan, ContractError>(e),
            None => r matches Ok(p) && ({
                &&& p.new_swap == (match swap_amount {
                    Some(sa) => sa,
                    None => b.swap_amount,
                })
                &&& p.new_min == new_min_receive(*b, minimum_receive_amount, swap_amount)
                &&& p.new_strat == new_strategy(*b, swap_adjustment_strategy, swap_amount)
                &&& p.new_label == label
                &&& (destinations is Some ==> (p.new_destinations matches Some(d) && d@
                    == new_dests_view(*b, destinations)))
                &&& (destinations is None ==> p.new_destinations is None)
                &&& p.new_trigger == new_trigger(*b, time_interval, block.time)
                &&& updates_match(
                    *b,
                    label,
                    destinations,
                    slippage_tolerance,
                    minimum_receive_amount,
                    time_interval,
                    swap_adjustment_strategy,
                    swap_amount,
                    block.time,
                    p.updates@,
                )
            }),
        },
{
    if swap_amount.is_some() && minimum_receive_amount.is_some() {
        return Err(ContractError::SwapAmountWithMinimumReceive);
    }
    if swap_amount.is_some() && swap_adjustment_strategy.is_some() {
        return Err(ContractError::SwapAmountWithStrategy);
    }
    let ghost c1 = swap_amount is Some && b.minimum_receive_amount is Some;
    let ghost c2 = swap_amount is Some && b.swap_adjustment_strategy matches Some(
        SwapAdjustmentStrategy::WeightedScale { .. },
    );
    let ghost c3 = swap_amount is Some;
    let ghost c4 = label is Some;
    let ghost c5 = destinations is Some;
    let ghost c6 = slippage_tolerance is Some;
    let ghost c7 = minimum_receive_amount is Some;
    let ghost c8 = time_interval is Some;
    let ghost c9 = time_interval is Some && b.trigger is Some;
    let ghost c10 = swap_adjustment_strategy is Some;
    let ghost i1 = 0int;
    let ghost i2 = i1 + (if c1 { 1int } else { 0 });
    let ghost i3 = i2 + (if c2 { 1int } else { 0 });
    let ghost i4 = i3 + (if c3 { 1int } else { 0 });
    let ghost i5 = i4 + (if c4 { 1int } else { 0 });
    let ghost i6 = i5 + (if c5 { 1int } else { 0 });
    let ghost i7 = i6 + (if c6 { 1int } else { 0 });
    let ghost i8 = i7 + (if c7 { 1int } else { 0 });
    let ghost i9 = i8 + (if c8 { 1int } else { 0 });
    let ghost i10 = i9 + (if c9 { 1int } else { 0 });
    let mut updates: Vec<Update> = Vec::new();
    let mut new_min: Option<u128> = b.minimum_receive_amount;
    let mut new_strat: Option<SwapAdjustmentStrategy> = b.swap_adjustment_strategy;
    let mut new_swap: u128 = b.swap_amount;
    match swap_amount {
        Some(sa) => {
            match plan_swap_amount(b, sa, &mut updates) {
                Ok(t) => {
                    new_swap = t.0;
                    new_min = t.1;
                    new_strat = t.2;
                },
                Err(e) => {
                    return Err(e);
                },
            }
        },
        None => {},
    }
    proof {
        assert(updates@.len() == i4);
        assert(c1 ==> updates@[i1] == (Update::MinimumReceiveAmount {
            old_value: b.minimum_receive_amount,
            new_value: new_min_receive(*b, minimum_receive_amount, swap_amount),
        }));
        assert(c2 ==> updates@[i2] == (Update::Strategy {
            old_value: b.swap_adjustment_strategy,
            new_value: new_strategy(*b, swap_adjustment_strategy, swap_amount),
        }));
        assert(c3 ==> updates@[i3] == (Update::SwapAmount {
            old_value: b.swap_amount,
            new_value: swap_amount->0,
        }));
    }
    let new_label: Option<String> = match &label {
        Some(l) => {
            if l.as_str().unicode_len() > 100 {
                return Err(ContractError::LabelTooLong);
            }
            updates.push(
                Update::Label {
                    old_value: match &b.label {
                        Some(ol) => Some(ol.clone()),
                        None => None,
                    },
                    new_value: l.clone(),
                },
            );
            Some(l.clone())
        },
        None => None,
    };
    proof {
        assert(updates@.len() == i5);
        assert(c4 ==> updates@[i4] == (Update::Label { old_value: b.label, new_value: label->0 }));
    }
    let new_destinations: Option<Vec<Destination>> = match &destinations {
        Some(given) => {
            match plan_destinations(b, given, &mut updates) {
                Ok(d) => Some(d),
                Err(e) => {
                    return Err(e);
                },
            }
        },
        None => None,
    };
    proof {
        assert(updates@.len() == i6);
        assert(c5 ==> (updates@[i5] matches Update::Destinations { old_value, new_value }
            && old_value@ == b.destinations@ && new_value@ == new_dests_view(*b, destinations)));
    }
    match slippage_tolerance {
        Some(st) => {
            match crate::validation::assert_slippage_tolerance_is_less_than_or_equal_to_one(st) {
                Ok(_) => {},
                Err(e) => {
                    return Err(e);
                },
            }
            updates.push(
                Update::SlippageTolerance { old_value: b.slippage_tolerance, new_value: st },
            );
        },
        None => {},
    }
    proof {
        assert(updates@.len() == i7);
        assert(c6 ==> updates@[i6] == (Update::SlippageTolerance {
            old_value: b.slippage_tolerance,
            new_value: slippage_tolerance->0,
        }));
    }
    match minimum_receive_amount {
        Some(min) => {
            updates.push(
                Update::MinimumReceiveAmount {
                    old_value: b.minimum_receive_amount,
                    new_value: Some(min),
                },
            );
            new_min = Some(min);
        },
        None => {},
    }
    proof {
        assert(updates@.len() == i8);
        assert(c7 ==> updates@[i7] == (Update::MinimumReceiveAmount {
            old_value: b.minimum_receive_amount,
            new_value: minimum_receive_amount,
        }));
    }
    let mut new_trigger_value: Option<TriggerConfiguration> = b.trigger;
    match time_interval {
        Some(ti) => {
            match crate::time::assert_time_interval_is_valid(&ti) {
                Ok(_) => {},
                Err(e) => {
                    return Err(e);
                },
            }
            updates.push(Update::Interval { old_value: b.time_interval, new_value: ti });
            match b.trigger {
                Some(old_trigger) => {
                    let basis = match b.started_at {
                        Some(t) => t,
                        None => block.time,
                    };
                    let target = get_next_target_time(block.time, basis, &ti);
                    let nt = TriggerConfiguration::Time { target_time: target };
                    new_trigger_value = Some(nt);
                    updates.push(Update::Trigger { old_value: old_trigger, new_value: nt });
                },
                None => {},
            }
        },
        None => {},
    }
    proof {
        assert(updates@.len() == i10);
        assert(c8 ==> updates@[i8] == (Update::Interval {
            old_value: b.time_interval,
            new_value: time_interval->0,
        }));
        assert(c9 ==> updates@[i9] == (Update::Trigger {
            old_value: b.trigger->0,
            new_value: new_trigger(*b, time_interval, block.time)->0,
        }));
    }
    match swap_adjustment_strategy {
        Some(params) => {
            match (params, b.swap_adjustment_strategy) {
                (
                    SwapAdjustmentStrategyParams::WeightedScale {
                        base_receive_amount,
                        multiplier,
                        increase_only,
                    },
                    Some(SwapAdjustmentStrategy::WeightedScale { .. }),
                ) => {
                    match crate::validation::assert_weighted_scale_multiplier_is_no_more_than_10(
                        multiplier,
                    ) {
                        Ok(_) => {},
                        Err(e) => {
                            return Err(e);
                        },
                    }
                    let ns = SwapAdjustmentStrategy::WeightedScale {
                        base_receive_amount,
                        multiplier,
                        increase_only,
                    };
                    updates.push(
                        Update::Strategy {
                            old_value: b.swap_adjustment_strategy,
                            new_value: Some(ns),
                        },
                    );
                    new_strat = Some(ns);
                },
                _ => {
                    return Err(ContractError::StrategyChangeInvalid);
                },
            }
        },
        None => {},
    }
    proof {
        lemma_updates_match(
            *b,
            label,
            destinations,
            slippage_tolerance,
            minimum_receive_amount,
            time_interval,
            swap_adjustment_strategy,
            swap_amount,
            block.time,
            updates@,
        );
    }
    Ok(
        UpdatePlan {
            new_swap,
            new_min,
            new_strat,
            new_label,
            new_destinations,
            new_trigger: new_trigger_value,
            updates,
        },
    )
}

/// Applies the requested changes to the vault, after validating every one of
/// them, and records the applied changes as one updated event. A rejected
/// update leaves the vault untouched.
#[verifier::rlimit(100)]
pub fn update_bounty_handler(
    state: &mut State,
    block: BlockInfo,
    info: &MessageInfo,
    bounty_id: u128,
    label: Option<String>,
    destinations: Option<Vec<Destination>>,
    slippage_tolerance: Option<Decimal>,
    minimum_receive_amount: Option<u128>,
    time_interval: Option<TimeInterval>,
    swap_adjustment_strategy: Option<SwapAdjustmentStrategyParams>,
    swap_amount: Option<u128>,
) -> (r: Result<Response, ContractError>)
    requires
        old(state).wf(),
        old(state).events@.len() < u64::MAX,
    ensures
        final(state).wf(),
        match update_checks(
            *old(state),
            *info,
            bounty_id,
            label,
            destinations,
            slippage_tolerance,
            minimum_receive_amount,
            time_interval,
            swap_adjustment_strategy,
            swap_amount,
        ) {
            Some(e) => r == Err::<Response, ContractError>(e) && *final(state) == *old(state),
            None => {
                let b = bounty_at(old(state).bounties@, bounty_id);
                let idx = bounty_index(old(state).bounties@, bounty_id);
                &&& r matches Ok(resp) && resp.messages@.len() == 0
                &&& final(state).bounties@.len() == old(state).bounties@.len()
                &&& (forall|j: int|
                    0 <= j < old(state).bounties@.len() && j != idx
                        ==> final(state).bounties@[j] == #[trigger] old(state).bounties@[j])
                &&& updated_bounty_matches(
                    b,
                    label,
                    destinations,
                    slippage_tolerance,
                    minimum_receive_amount,
                    time_interval,
                    swap_adjustment_strategy,
                    swap_amount,
                    block.time,
                    final(state).bounties@[idx],
                )
                &&& final(state).events@.len() == old(state).events@.len() + 1
                &&& final(state).events@.subrange(0, old(state).events@.len() as int) == old(
                    state,
                ).events@
                &&& final(state).events@.last().id == old(state).events@.len() + 1
                &&& final(state).events@.last().resource_id == bounty_id
                &&& final(state).events@.last().timestamp == block.time
                &&& final(state).events@.last().block_height == block.height
                &&& is_updated_event(
                    final(state).events@.last().data,
                    b,
                    label,
                    destinations,
                    slippage_tolerance,
                    minimum_receive_amount,
                    time_interval,
                    swap_adjustment_strategy,
                    swap_amount,
                    block.time,
                )
                &&& final(state).config == old(state).config
                &&& final(state).bounty_counter == old(state).bounty_counter
                &&& final(state).disburse_escrow_tasks == old(state).disburse_escrow_tasks
                &&& final(state).swap_cache == old(state).swap_cache
                &&& final(state).bounty_id_cache == old(state).bounty_id_cache
                &&& final(state).post_action_queues == old(state).post_action_queues
            },
        },
{
    let idx = match find_bounty_index(state, bounty_id) {
        Some(i) => i,
        None => {
            return Err(ContractError::BountyNotFound { bounty_id });
        },
    };
    if info.sender != state.bounties[idx].owner {
        return Err(ContractError::Unauthorized);
    }
    if state.bounties[idx].status == BountyStatus::Cancelled {
        return Err(ContractError::BountyCancelled);
    }
    let plan = match plan_update(
        &state.bounties[idx],
        block,
        label,
        destinations,
        slippage_tolerance,
        minimum_receive_amount,
        time_interval,
        swap_adjustment_strategy,
        swap_amount,
    ) {
        Ok(p) => p,
        Err(e) => {
            return Err(e);
        },
    };
    let ghost before = state.bounties@;
    state.bounties[idx].swap_amount = plan.new_swap;
    state.bounties[idx].minimum_receive_amount = plan.new_min;
    state.bounties[idx].swap_adjustment_strategy = plan.new_strat;
    match plan.new_label {
        Some(l) => {
            state.bounties[idx].label = Some(l);
        },
        None => {},
    }
    match plan.new_destinations {
        Some(d) => {
            state.bounties[idx].destinations = d;
        },
        None => {},
    }
    match slippage_tolerance {
        Some(st) => {
            state.bounties[idx].slippage_tolerance = st;
        },
        None => {},
    }
    match time_interval {
        Some(ti) => {
            state.bounties[idx].time_interval = ti;
            state.bounties[idx].trigger = plan.new_trigger;
        },
        None => {},
    }
    proof {
        assert forall|a: int, b: int|
            0 <= a < b < state.bounties@.len() implies state.bounties@[a].id
            < state.bounties@[b].id by {
            assert(before[a].id < before[b].id);
        }
    }
    match create_event(
        state,
        EventBuilder::new(bounty_id, block, EventData::BountyUpdated { updates: plan.updates }),
    ) {
        Ok(_) => {},
        Err(e) => {
            return Err(e);
        },
    }
    proof {
        assert(state.events@.subrange(0, old(state).events@.len() as int) =~= old(state).events@);
    }
    Ok(Response::new())
}

} // verus!
