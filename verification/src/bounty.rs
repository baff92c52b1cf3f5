//! The vault ("bounty") entity and its lifecycle-independent readings.

use vstd::prelude::*;
use crate::coin::Coin;
use crate::destination::{clone_destinations, Destination};
use crate::error::ContractError;
use crate::math::{Decimal, MathError, mul_ratio_u128, DECIMAL_FRACTIONAL};
use crate::strategy::{PerformanceAssessmentStrategy, SwapAdjustmentStrategy};
use crate::time::{interval_seconds_spec, TimeInterval};
use crate::trigger::TriggerConfiguration;

verus! {

/// Where a vault stands in its life.
///
/// `Scheduled` awaits its start condition; `Active` executes on its trigger;
/// `Inactive` lacks the funds for one more execution; `Cancelled` is terminal,
/// reached only by explicit cancellation.
#[derive(Clone, Copy, PartialEq, Eq, Structural, Debug)]
pub enum BountyStatus {
    Scheduled,
    Active,
    Inactive,
    Cancelled,
}

/// A recurring-swap position: its balance, schedule, destinations and running
/// totals.
///
/// `balance`, `deposited_amount` and `swapped_amount` are in the source
/// denomination; `received_amount` and `escrowed_amount` are in the target
/// denomination. All times are UTC seconds.
#[derive(Debug, PartialEq, Eq)]
pub struct Bounty {
    pub id: u128,
    pub created_at: u64,
    pub started_at: Option<u64>,
    pub owner: String,
    pub label: Option<String>,
    pub destinations: Vec<Destination>,
    pub status: BountyStatus,
    pub balance: Coin,
    pub target_denom: String,
    /// An opaque venue route, handed on verbatim with each swap.
    pub route: Option<String>,
    pub swap_amount: u128,
    pub slippage_tolerance: Decimal,
    pub minimum_receive_amount: Option<u128>,
    pub time_interval: TimeInterval,
    /// The fraction of each settlement withheld into escrow.
    pub escrow_level: Decimal,
    pub deposited_amount: Coin,
    pub swapped_amount: Coin,
    pub received_amount: Coin,
    pub escrowed_amount: Coin,
    pub performance_assessment_strategy: Option<PerformanceAssessmentStrategy>,
    pub swap_adjustment_strategy: Option<SwapAdjustmentStrategy>,
    pub trigger: Option<TriggerConfiguration>,
}

/// Whether `b` holds the same values as `a`: equality, with the destination
/// list compared element by element.
pub open spec fn bounty_copies(a: Bounty, b: Bounty) -> bool {
    &&& b.id == a.id
    &&& b.created_at == a.created_at
    &&& b.started_at == a.started_at
    &&& b.owner == a.owner
    &&& b.label == a.label
    &&& b.destinations@ == a.destinations@
    &&& b.status == a.status
    &&& b.balance == a.balance
    &&& b.target_denom == a.target_denom
    &&& b.route == a.route
    &&& b.swap_amount == a.swap_amount
    &&& b.slippage_tolerance == a.slippage_tolerance
    &&& b.minimum_receive_amount == a.minimum_receive_amount
    &&& b.time_interval == a.time_interval
    &&& b.escrow_level == a.escrow_level
    &&& b.deposited_amount == a.deposited_amount
    &&& b.swapped_amount == a.swapped_amount
    &&& b.received_amount == a.received_amount
    &&& b.escrowed_amount == a.escrowed_amount
    &&& b.performance_assessment_strategy == a.performance_assessment_strategy
    &&& b.swap_adjustment_strategy == a.swap_adjustment_strategy
    &&& b.trigger == a.trigger
}

impl Clone for Bounty {
    fn clone(&self) -> (r: Bounty)
        ensures
            bounty_copies(*self, r),
    {
        Bounty {
            id: self.id,
            created_at: self.created_at,
            started_at: self.started_at,
            owner: self.owner.clone(),
            label: match &self.label {
                Some(l) => Some(l.clone()),
                None => None,
            },
            destinations: clone_destinations(&self.destinations),
            status: self.status,
            balance: self.balance.clone(),
            target_denom: self.target_denom.clone(),
            route: match &self.route {
                Some(r_) => Some(r_.clone()),
                None => None,
            },
            swap_amount: self.swap_amount,
            slippage_tolerance: self.slippage_tolerance,
            minimum_receive_amount: self.minimum_receive_amount,
            time_interval: self.time_interval,
            escrow_level: self.escrow_level,
            deposited_amount: self.deposited_amount.clone(),
            swapped_amount: self.swapped_amount.clone(),
            received_amount: self.received_amount.clone(),
            escrowed_amount: self.escrowed_amount.clone(),
            performance_assessment_strategy: match &self.performance_assessment_strategy {
                Some(s) => Some(s.clone()),
                None => None,
            },
            swap_adjustment_strategy: self.swap_adjustment_strategy,
            trigger: self.trigger,
        }
    }
}

/// The source-denomination amount whose conversion is still outstanding when
/// projecting the vault's end: with a baseline, the larger of the baseline's
/// unswapped deposit and the balance; without one, the balance.
pub open spec fn remaining_for_schedule_spec(b: Bounty) -> int {
    match b.performance_assessment_strategy {
        Some(s) => {
            let unswapped = if b.deposited_amount.amount > s.swapped_amount_spec() {
                b.deposited_amount.amount - s.swapped_amount_spec()
            } else {
                0
            };
            if unswapped > b.balance.amount {
                unswapped
            } else {
                b.balance.amount as int
            }
        },
        None => b.balance.amount as int,
    }
}

/// When execution would naturally finish: one interval for every outstanding
/// execution, counted from `now`, capped at the largest representable time.
pub open spec fn expected_completed_spec(b: Bounty, now: int) -> int {
    let total = (remaining_for_schedule_spec(b) / b.swap_amount as int) * interval_seconds_spec(
        b.time_interval,
    );
    if now + total > u64::MAX {
        u64::MAX as int
    } else {
        now + total
    }
}

impl Bounty {
    /// The denomination the vault swaps away.
    pub fn get_swap_denom(&self) -> (r: String)
        ensures
            r == self.balance.denom,
    {
        self.balance.denom.clone()
    }

    /// The pair the vault trades: source denomination, then target.
    pub fn denoms(&self) -> (r: (String, String))
        ensures
            r.0 == self.balance.denom,
            r.1 == self.target_denom,
    {
        (self.balance.denom.clone(), self.target_denom.clone())
    }

    pub fn is_scheduled(&self) -> (r: bool)
        ensures
            r == (self.status == BountyStatus::Scheduled),
    {
        self.status == BountyStatus::Scheduled
    }

    pub fn is_active(&self) -> (r: bool)
        ensures
            r == (self.status == BountyStatus::Active),
    {
        self.status == BountyStatus::Active
    }

    pub fn is_inactive(&self) -> (r: bool)
        ensures
            r == (self.status == BountyStatus::Inactive),
    {
        self.status == BountyStatus::Inactive
    }

    pub fn is_cancelled(&self) -> (r: bool)
        ensures
            r == (self.status == BountyStatus::Cancelled),
    {
        self.status == BountyStatus::Cancelled
    }

    /// Whether the balance no longer covers one configured execution.
    pub fn low_funds(&self) -> (r: bool)
        ensures
            r == (self.balance.amount < self.swap_amount),
    {
        self.balance.amount < self.swap_amount
    }

    /// Whether the vault is done: inactive, and any baseline has exhausted its
    /// deposit as well.
    pub fn should_not_continue(&self) -> (r: bool)
        ensures
            r == (self.status == BountyStatus::Inactive
                && match self.performance_assessment_strategy {
                Some(s) => s.swapped_amount_spec() >= self.deposited_amount.amount,
                None => true,
            }),
    {
        self.is_inactive() && match &self.performance_assessment_strategy {
            Some(s) => !s.should_continue(&self.deposited_amount),
            None => true,
        }
    }

    /// What the next execution will actually swap: the configured amount,
    /// bounded by the balance.
    pub fn get_swap_amount(&self) -> (r: Coin)
        ensures
            r.denom == self.balance.denom,
            r.amount == (if self.swap_amount < self.balance.amount {
                self.swap_amount as int
            } else {
                self.balance.amount as int
            }),
    {
        let amount = if self.swap_amount < self.balance.amount {
            self.swap_amount
        } else {
            self.balance.amount
        };
        Coin { denom: self.balance.denom.clone(), amount }
    }

    /// Projects when execution would naturally finish, so that escrow is not
    /// judged before the vault could have run its course.
    pub fn get_expected_execution_completed_date(&self, current_time: u64) -> (r: u64)
        requires
            self.swap_amount > 0,
        ensures
            r == expected_completed_spec(*self, current_time as int),
    {
        let remaining: u128 = match &self.performance_assessment_strategy {
            Some(s) => {
                let std_swapped = match s {
                    PerformanceAssessmentStrategy::CompareToStandardDca {
                        swapped_amount,
                        ..
                    } => swapped_amount.amount,
                };
                let unswapped: u128 = if self.deposited_amount.amount > std_swapped {
                    self.deposited_amount.amount - std_swapped
                } else {
                    0
                };
                if unswapped > self.balance.amount {
                    unswapped
                } else {
                    self.balance.amount
                }
            },
            None => self.balance.amount,
        };
        let executions: u128 = remaining / self.swap_amount;
        let seconds: u128 = self.time_interval.seconds() as u128;
        let total: u128 = match executions.checked_mul(seconds) {
            Some(t) => t,
            None => u128::MAX,
        };
        proof {
            if executions * seconds > u128::MAX {
                assert(total == u128::MAX);
                assert(current_time + executions * seconds > u64::MAX);
            }
        }
        if total > (u64::MAX - current_time) as u128 {
            u64::MAX
        } else {
            current_time + (total as u64)
        }
    }

    /// Whether a swap at `belief_price` could not meet the configured minimum
    /// receive amount: the expected proceeds `swap_amount / belief_price` fall
    /// short of it.
    pub fn price_threshold_exceeded(&self, belief_price: Decimal) -> (r: Result<
        bool,
        ContractError,
    >)
        requires
            belief_price.atomics > 0,
        ensures
            r == (match self.minimum_receive_amount {
                None => Ok::<bool, ContractError>(false),
                Some(min) => Ok::<bool, ContractError>(
                    self.swap_amount * DECIMAL_FRACTIONAL < min * belief_price.atomics,
                ),
            }),
    {
        match self.minimum_receive_amount {
            None => Ok(false),
            Some(min) => {
                match mul_ratio_u128(self.swap_amount, DECIMAL_FRACTIONAL, belief_price.atomics) {
                    Ok(expected) => {
                        proof {
                            lemma_floor_vs_bound(
                                self.swap_amount as int,
                                DECIMAL_FRACTIONAL as int,
                                belief_price.atomics as int,
                                min as int,
                            );
                        }
                        Ok(expected < min)
                    },
                    Err(e) => {
                        proof {
                            assert(e == MathError::Overflow);
                            lemma_floor_vs_bound(
                                self.swap_amount as int,
                                DECIMAL_FRACTIONAL as int,
                                belief_price.atomics as int,
                                min as int,
                            );
                        }
                        Ok(false)
                    },
                }
            },
        }
    }
}

/// For positive `d` and integer `m`: `floor(v * n / d) < m` exactly when
/// `v * n < m * d`.
proof fn lemma_floor_vs_bound(v: int, n: int, d: int, m: int)
    requires
        v >= 0,
        n >= 0,
        d > 0,
        m >= 0,
    ensures
        ((v * n) / d < m) <==> (v * n < m * d),
{
    let x = v * n;
    vstd::arithmetic::div_mod::lemma_fundamental_div_mod(x, d);
    vstd::arithmetic::div_mod::lemma_mod_division_less_than_divisor(x, d);
    assert(x == d * (x / d) + x % d);
    if x / d < m {
        assert(x / d + 1 <= m);
        assert(d * (x / d) + d <= d * m) by (nonlinear_arith)
            requires
                d > 0,
                x / d + 1 <= m,
        ;
        assert(x < d * m);
        assert(x < m * d) by (nonlinear_arith)
            requires
                x < d * m,
        ;
    }
    if x < m * d {
        assert(x / d < m) by {
            if x / d >= m {
                assert(x >= 0);
                assert(x / d >= 0) by (nonlinear_arith)
                    requires
                        x >= 0,
                        d > 0,
                        x == d * (x / d) + x % d,
                        0 <= x % d < d,
                ;
                assert(d * (x / d) >= d * m) by (nonlinear_arith)
                    requires
                        d > 0,
                        x / d >= m,
                ;
                assert(x >= d * m);
                assert(d * m == m * d) by (nonlinear_arith);
                assert(false);
            }
        }
    }
}

/// The makings of a vault, before the store assigns its id.
#[derive(Debug)]
pub struct BountyBuilder {
    pub created_at: u64,
    pub started_at: Option<u64>,
    pub owner: String,
    pub label: Option<String>,
    pub destinations: Vec<Destination>,
    pub status: BountyStatus,
    pub balance: Coin,
    pub target_denom: String,
    pub route: Option<String>,
    pub swap_amount: u128,
    pub slippage_tolerance: Decimal,
    pub minimum_receive_amount: Option<u128>,
    pub time_interval: TimeInterval,
    pub escrow_level: Decimal,
    pub deposited_amount: Coin,
    pub swapped_amount: Coin,
    pub received_amount: Coin,
    pub escrowed_amount: Coin,
    pub performance_assessment_strategy: Option<PerformanceAssessmentStrategy>,
    pub swap_adjustment_strategy: Option<SwapAdjustmentStrategy>,
}

impl BountyBuilder {
    /// Gathers every field of a vault-to-be.
    pub fn new(
        created_at: u64,
        started_at: Option<u64>,
        owner: String,
        label: Option<String>,
        destinations: Vec<Destination>,
        status: BountyStatus,
        balance: Coin,
        target_denom: String,
        route: Option<String>,
        swap_amount: u128,
        slippage_tolerance: Decimal,
        minimum_receive_amount: Option<u128>,
        time_interval: TimeInterval,
        escrow_level: Decimal,
        deposited_amount: Coin,
        swapped_amount: Coin,
        received_amount: Coin,
        escrowed_amount: Coin,
        performance_assessment_strategy: Option<PerformanceAssessmentStrategy>,
        swap_adjustment_strategy: Option<SwapAdjustmentStrategy>,
    ) -> (r: BountyBuilder)
        ensures
            r == (BountyBuilder {
                created_at,
                started_at,
                owner,
                label,
                destinations,
                status,
                balance,
                target_denom,
                route,
                swap_amount,
                slippage_tolerance,
                minimum_receive_amount,
                time_interval,
                escrow_level,
                deposited_amount,
                swapped_amount,
                received_amount,
                escrowed_amount,
                performance_assessment_strategy,
                swap_adjustment_strategy,
            }),
    {
        BountyBuilder {
            created_at,
            started_at,
            owner,
            label,
            destinations,
            status,
            balance,
            target_denom,
            route,
            swap_amount,
            slippage_tolerance,
            minimum_receive_amount,
            time_interval,
            escrow_level,
            deposited_amount,
            swapped_amount,
            received_amount,
            escrowed_amount,
            performance_assessment_strategy,
            swap_adjustment_strategy,
        }
    }

    /// The vault under its assigned id. A fresh vault owns no trigger yet.
    pub fn build(self, id: u128) -> (r: Bounty)
        ensures
            r == (Bounty {
                id,
                created_at: self.created_at,
                started_at: self.started_at,
                owner: self.owner,
                label: self.label,
                destinations: self.destinations,
                status: self.status,
                balance: self.balance,
                target_denom: self.target_denom,
                route: self.route,
                swap_amount: self.swap_amount,
                slippage_tolerance: self.slippage_tolerance,
                minimum_receive_amount: self.minimum_receive_amount,
                time_interval: self.time_interval,
                escrow_level: self.escrow_level,
                deposited_amount: self.deposited_amount,
                swapped_amount: self.swapped_amount,
                received_amount: self.received_amount,
                escrowed_amount: self.escrowed_amount,
                performance_assessment_strategy: self.performance_assessment_strategy,
                swap_adjustment_strategy: self.swap_adjustment_strategy,
                trigger: None,
            }),
    {
        Bounty {
            id,
            created_at: self.created_at,
            started_at: self.started_at,
            owner: self.owner,
            label: self.label,
            destinations: self.destinations,
            status: self.status,
            balance: self.balance,
            target_denom: self.target_denom,
            route: self.route,
            swap_amount: self.swap_amount,
            slippage_tolerance: self.slippage_tolerance,
            minimum_receive_amount: self.minimum_receive_amount,
            time_interval: self.time_interval,
            escrow_level: self.escrow_level,
            deposited_amount: self.deposited_amount,
            swapped_amount: self.swapped_amount,
            received_amount: self.received_amount,
            escrowed_amount: self.escrowed_amount,
            performance_assessment_strategy: self.performance_assessment_strategy,
            swap_adjustment_strategy: self.swap_adjustment_strategy,
            trigger: None,
        }
    }
}

} // verus!
