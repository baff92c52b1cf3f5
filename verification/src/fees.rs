//! Fee routing and the escrowed performance fee.
//!
//! The performance fee compares what the vault actually received with what
//! its recorded counterfactual — a plain periodic execution of the same
//! deposit — stands at, both valued in the target denomination at the
//! sampled price. A fifth of the outperformance is charged, capped at the
//! escrowed amount; without outperformance the whole escrow goes back.

use vstd::prelude::*;
use crate::bounty::Bounty;
use crate::coin::Coin;
use crate::config::FeeCollector;
use crate::error::ContractError;
use crate::math::{
    lemma_ratio_floor_le_self, mul_floor, mul_floor_spec, mul_ratio_u128, ratio_floor, Decimal,
    MathError, DECIMAL_FRACTIONAL,
};
use crate::msgs::{OutMsg, OutMsgBody, ReplyOn};
use crate::state::State;
use crate::strategy::PerformanceAssessmentStrategy;

verus! {

/// The share of outperformance charged as the performance fee: twenty
/// percent, in atomic units.
pub const PERFORMANCE_FEE_ATOMICS: u128 = 200_000_000_000_000_000;

/// One collector's share of a fee.
pub open spec fn collector_share(amount: int, c: FeeCollector) -> int {
    mul_floor_spec(amount, c.allocation.atomics as int)
}

/// The transfers that route a fee to the collectors, in order, zero shares
/// left out.
pub open spec fn fee_msgs(collectors: Seq<FeeCollector>, amount: int, denom: String) -> Seq<OutMsg>
    decreases collectors.len(),
{
    if collectors.len() == 0 {
        Seq::empty()
    } else {
        let rest = fee_msgs(collectors.drop_last(), amount, denom);
        let share = collector_share(amount, collectors.last());
        if share == 0 {
            rest
        } else {
            rest.push(
                OutMsg {
                    id: 0,
                    reply_on: ReplyOn::Never,
                    body: OutMsgBody::BankSend {
                        to_address: collectors.last().address,
                        amount: Coin { denom, amount: share as u128 },
                    },
                },
            )
        }
    }
}

/// Every collector's share of `amount` fits in 128 bits.
pub open spec fn collector_shares_ok(collectors: Seq<FeeCollector>, amount: int) -> bool {
    forall|i: int|
        0 <= i < collectors.len() ==> collector_share(amount, #[trigger] collectors[i])
            <= u128::MAX
}

/// The transfers that split `fee_amount` of `denom` across the configured
/// collectors by allocation, zero shares left out.
pub fn get_fee_messages(state: &State, fee_amount: u128, denom: &String) -> (r: Result<
    Vec<OutMsg>,
    ContractError,
>)
    ensures
        collector_shares_ok(state.config.fee_collectors@, fee_amount as int) ==> (r matches Ok(
            msgs,
        ) && msgs@ == fee_msgs(state.config.fee_collectors@, fee_amount as int, *denom)),
        !collector_shares_ok(state.config.fee_collectors@, fee_amount as int) ==> r == Err::<
            Vec<OutMsg>,
            ContractError,
        >(ContractError::Math { error: MathError::Overflow }),
{
    let n = state.config.fee_collectors.len();
    let mut msgs: Vec<OutMsg> = Vec::new();
    let mut i: usize = 0;
    while i < n
        invariant
            n == state.config.fee_collectors@.len(),
            i <= n,
            forall|k: int|
                0 <= k < i ==> collector_share(
                    fee_amount as int,
                    #[trigger] state.config.fee_collectors@[k],
                ) <= u128::MAX,
            msgs@ == fee_msgs(
                state.config.fee_collectors@.subrange(0, i as int),
                fee_amount as int,
                *denom,
            ),
        decreases n - i,
    {
        let ghost prefix = state.config.fee_collectors@.subrange(0, i as int);
        let c = &state.config.fee_collectors[i];
        proof {
            assert(state.config.fee_collectors@.subrange(0, i as int + 1).drop_last() =~= prefix);
        }
        match mul_floor(fee_amount, c.allocation) {
            Ok(share) => {
                if share > 0 {
                    msgs.push(
                        OutMsg::new(
                            OutMsgBody::BankSend {
                                to_address: c.address.clone(),
                                amount: Coin { denom: denom.clone(), amount: share },
                            },
                        ),
                    );
                }
            },
            Err(_) => {
                proof {
                    assert(collector_share(
                        fee_amount as int,
                        state.config.fee_collectors@[i as int],
                    ) > u128::MAX);
                }
                return Err(ContractError::Math { error: MathError::Overflow });
            },
        }
        i = i + 1;
    }
    proof {
        assert(state.config.fee_collectors@.subrange(0, n as int)
            =~= state.config.fee_collectors@);
    }
    Ok(msgs)
}

/// `floor(amount / price)`: a source-denomination amount valued in the target
/// denomination at `price`, the price being source per target.
pub open spec fn value_in_target(amount: int, price_atomics: int) -> int {
    ratio_floor(amount, DECIMAL_FRACTIONAL as int, price_atomics)
}

/// The source amount the vault has not yet swapped, by its own totals.
pub open spec fn unswapped_spec(b: Bounty) -> int {
    if b.deposited_amount.amount > b.swapped_amount.amount {
        b.deposited_amount.amount - b.swapped_amount.amount
    } else {
        0
    }
}

/// The source amount the recorded counterfactual has not yet swapped.
pub open spec fn std_unswapped_spec(b: Bounty, s: PerformanceAssessmentStrategy) -> int {
    if b.deposited_amount.amount > s.swapped_amount_spec() {
        b.deposited_amount.amount - s.swapped_amount_spec()
    } else {
        0
    }
}

/// What the vault's position is worth in the target denomination: proceeds so
/// far plus the unswapped remainder valued at `price`.
pub open spec fn actual_total_spec(b: Bounty, price_atomics: int) -> int {
    value_in_target(unswapped_spec(b), price_atomics) + b.received_amount.amount
}

/// What the counterfactual's position is worth in the target denomination.
pub open spec fn std_total_spec(b: Bounty, s: PerformanceAssessmentStrategy, price_atomics: int) -> int {
    value_in_target(std_unswapped_spec(b, s), price_atomics) + s.received_amount_spec()
}

/// How far the vault outran its counterfactual, in the target denomination;
/// never negative.
pub open spec fn outperformance_spec(b: Bounty, s: PerformanceAssessmentStrategy, price_atomics: int) -> int {
    if actual_total_spec(b, price_atomics) > std_total_spec(b, s, price_atomics) {
        actual_total_spec(b, price_atomics) - std_total_spec(b, s, price_atomics)
    } else {
        0
    }
}

/// The performance fee owed: a fifth of the outperformance, capped at the
/// escrowed amount; zero without a baseline.
pub open spec fn performance_fee_spec(b: Bounty, price_atomics: int) -> int {
    match b.performance_assessment_strategy {
        None => 0,
        Some(s) => {
            let fee = mul_floor_spec(
                outperformance_spec(b, s, price_atomics),
                PERFORMANCE_FEE_ATOMICS as int,
            );
            if fee > b.escrowed_amount.amount {
                b.escrowed_amount.amount as int
            } else {
                fee
            }
        },
    }
}

/// Both positions' values fit in 128 bits at this price.
pub open spec fn performance_values_fit(b: Bounty, s: PerformanceAssessmentStrategy, price_atomics: int) -> bool {
    &&& value_in_target(unswapped_spec(b), price_atomics) <= u128::MAX
    &&& actual_total_spec(b, price_atomics) <= u128::MAX
    &&& value_in_target(std_unswapped_spec(b, s), price_atomics) <= u128::MAX
    &&& std_total_spec(b, s, price_atomics) <= u128::MAX
}

/// Computes the performance fee owed at `current_price`, in the target
/// denomination.
pub fn get_performance_fee(bounty: &Bounty, current_price: Decimal) -> (r: Result<
    Coin,
    ContractError,
>)
    requires
        current_price.atomics > 0,
    ensures
        match bounty.performance_assessment_strategy {
            None => (r matches Ok(c) && c.denom == bounty.target_denom && c.amount == 0),
            Some(s) => {
                if performance_values_fit(*bounty, s, current_price.atomics as int) {
                    r matches Ok(c) && c.denom == bounty.target_denom && c.amount
                        == performance_fee_spec(*bounty, current_price.atomics as int)
                } else {
                    r == Err::<Coin, ContractError>(
                        ContractError::Math { error: MathError::Overflow },
                    )
                }
            },
        },
{
    let s = match &bounty.performance_assessment_strategy {
        None => {
            return Ok(Coin { denom: bounty.target_denom.clone(), amount: 0 });
        },
        Some(s) => s,
    };
    let (std_swapped, std_received) = match s {
        PerformanceAssessmentStrategy::CompareToStandardDca {
            swapped_amount,
            received_amount,
        } => (swapped_amount.amount, received_amount.amount),
    };
    let unswapped: u128 = if bounty.deposited_amount.amount > bounty.swapped_amount.amount {
        bounty.deposited_amount.amount - bounty.swapped_amount.amount
    } else {
        0
    };
    let std_unswapped: u128 = if bounty.deposited_amount.amount > std_swapped {
        bounty.deposited_amount.amount - std_swapped
    } else {
        0
    };
    let actual_rest = match mul_ratio_u128(unswapped, DECIMAL_FRACTIONAL, current_price.atomics) {
        Ok(v) => v,
        Err(_) => {
            return Err(ContractError::Math { error: MathError::Overflow });
        },
    };
    let actual_total = match actual_rest.checked_add(bounty.received_amount.amount) {
        Some(v) => v,
        None => {
            return Err(ContractError::Math { error: MathError::Overflow });
        },
    };
    let std_rest = match mul_ratio_u128(std_unswapped, DECIMAL_FRACTIONAL, current_price.atomics) {
        Ok(v) => v,
        Err(_) => {
            return Err(ContractError::Math { error: MathError::Overflow });
        },
    };
    let std_total = match std_rest.checked_add(std_received) {
        Some(v) => v,
        None => {
            return Err(ContractError::Math { error: MathError::Overflow });
        },
    };
    let outperformance: u128 = if actual_total > std_total {
        actual_total - std_total
    } else {
        0
    };
    proof {
        lemma_ratio_floor_le_self(
            outperformance as int,
            PERFORMANCE_FEE_ATOMICS as int,
            DECIMAL_FRACTIONAL as int,
        );
    }
    let fee = match mul_ratio_u128(outperformance, PERFORMANCE_FEE_ATOMICS, DECIMAL_FRACTIONAL) {
        Ok(v) => v,
        Err(_) => {
            proof {
                assert(false);
            }
            0
        },
    };
    let capped = if fee > bounty.escrowed_amount.amount {
        bounty.escrowed_amount.amount
    } else {
        fee
    };
    Ok(Coin { denom: bounty.target_denom.clone(), amount: capped })
}

/// The ratio of the vault's value to its counterfactual's value, to eighteen
/// decimal places.
pub fn get_performance_factor(bounty: &Bounty, current_price: Decimal) -> (r: Result<
    Decimal,
    ContractError,
>)
    requires
        current_price.atomics > 0,
        bounty.performance_assessment_strategy is Some,
    ensures
        ({
            let s = bounty.performance_assessment_strategy->0;
            let p = current_price.atomics as int;
            if performance_values_fit(*bounty, s, p) {
                if std_total_spec(*bounty, s, p) == 0 {
                    r == Err::<Decimal, ContractError>(
                        ContractError::Math { error: MathError::DivideByZero },
                    )
                } else if ratio_floor(
                    actual_total_spec(*bounty, p),
                    DECIMAL_FRACTIONAL as int,
                    std_total_spec(*bounty, s, p),
                ) > u128::MAX {
                    r == Err::<Decimal, ContractError>(
                        ContractError::Math { error: MathError::Overflow },
                    )
                } else {
                    r == Ok::<Decimal, ContractError>(
                        Decimal {
                            atomics: ratio_floor(
                                actual_total_spec(*bounty, p),
                                DECIMAL_FRACTIONAL as int,
                                std_total_spec(*bounty, s, p),
                            ) as u128,
                        },
                    )
                }
            } else {
                r == Err::<Decimal, ContractError>(
                    ContractError::Math { error: MathError::Overflow },
                )
            }
        }),
{
    let s = match &bounty.performance_assessment_strategy {
        None => {
            proof {
                assert(false);
            }
            return Err(ContractError::Math { error: MathError::Overflow });
        },
        Some(s) => s,
    };
    let (std_swapped, std_received) = match s {
        PerformanceAssessmentStrategy::CompareToStandardDca {
            swapped_amount,
            received_amount,
        } => (swapped_amount.amount, received_amount.amount),
    };
    let unswapped: u128 = if bounty.deposited_amount.amount > bounty.swapped_amount.amount {
        bounty.deposited_amount.amount - bounty.swapped_amount.amount
    } else {
        0
    };
    let std_unswapped: u128 = if bounty.deposited_amount.amount > std_swapped {
        bounty.deposited_amount.amount - std_swapped
    } else {
        0
    };
    let actual_rest = match mul_ratio_u128(unswapped, DECIMAL_FRACTIONAL, current_price.atomics) {
        Ok(v) => v,
        Err(_) => {
            return Err(ContractError::Math { error: MathError::Overflow });
        },
    };
    let actual_total = match actual_rest.checked_add(bounty.received_amount.amount) {
        Some(v) => v,
        None => {
            return Err(ContractError::Math { error: MathError::Overflow });
        },
    };
    let std_rest = match mul_ratio_u128(std_unswapped, DECIMAL_FRACTIONAL, current_price.atomics) {
        Ok(v) => v,
        Err(_) => {
            return Err(ContractError::Math { error: MathError::Overflow });
        },
    };
    let std_total = match std_rest.checked_add(std_received) {
        Some(v) => v,
        None => {
            return Err(ContractError::Math { error: MathError::Overflow });
        },
    };
    match mul_ratio_u128(actual_total, DECIMAL_FRACTIONAL, std_total) {
        Ok(atomics) => Ok(Decimal { atomics }),
        Err(MathError::DivideByZero) => Err(
            ContractError::Math { error: MathError::DivideByZero },
        ),
        Err(_) => Err(ContractError::Math { error: MathError::Overflow }),
    }
}

} // verus!
