//! Optional per-vault strategies: the performance-assessment baseline and the
//! swap-adjustment rule.

use vstd::prelude::*;
use crate::coin::Coin;
use crate::math::Decimal;

verus! {

/// Which side of the pair the vault entered from.
#[derive(Clone, Copy, PartialEq, Eq, Structural, Debug)]
pub enum PositionType {
    Enter,
    Exit,
}

/// The reference asset of a risk-weighted-average model.
#[derive(Clone, Copy, PartialEq, Eq, Structural, Debug)]
pub enum BaseDenom {
    Bitcoin,
}

/// How the per-execution swap amount is adjusted.
#[derive(Clone, Copy, PartialEq, Eq, Structural, Debug)]
pub enum SwapAdjustmentStrategy {
    RiskWeightedAverage { model_id: u8, base_denom: BaseDenom, position_type: PositionType },
    WeightedScale { base_receive_amount: u128, multiplier: Decimal, increase_only: bool },
}

/// A requested swap-adjustment rule, before a model id is assigned.
#[derive(Clone, Copy, PartialEq, Eq, Structural, Debug)]
pub enum SwapAdjustmentStrategyParams {
    RiskWeightedAverage { base_denom: BaseDenom, position_type: PositionType },
    WeightedScale { base_receive_amount: u128, multiplier: Decimal, increase_only: bool },
}

/// The counterfactual a vault's performance is judged against: the running
/// totals a plain periodic execution of the same deposit would have swapped
/// and received.
#[derive(Debug, PartialEq, Eq)]
pub enum PerformanceAssessmentStrategy {
    CompareToStandardDca { swapped_amount: Coin, received_amount: Coin },
}

impl Clone for PerformanceAssessmentStrategy {
    fn clone(&self) -> (r: PerformanceAssessmentStrategy)
        ensures
            r == *self,
    {
        match self {
            PerformanceAssessmentStrategy::CompareToStandardDca {
                swapped_amount,
                received_amount,
            } => PerformanceAssessmentStrategy::CompareToStandardDca {
                swapped_amount: swapped_amount.clone(),
                received_amount: received_amount.clone(),
            },
        }
    }
}

impl PerformanceAssessmentStrategy {
    /// How much the counterfactual standard execution has swapped so far.
    pub open spec fn swapped_amount_spec(self) -> nat {
        match self {
            PerformanceAssessmentStrategy::CompareToStandardDca { swapped_amount, .. } => {
                swapped_amount.amount as nat
            },
        }
    }

    /// How much the counterfactual standard execution has received so far.
    pub open spec fn received_amount_spec(self) -> nat {
        match self {
            PerformanceAssessmentStrategy::CompareToStandardDca { received_amount, .. } => {
                received_amount.amount as nat
            },
        }
    }

    /// Whether the counterfactual standard execution still has deposit left to
    /// swap.
    pub fn should_continue(&self, deposited_amount: &Coin) -> (r: bool)
        ensures
            r == (self.swapped_amount_spec() < deposited_amount.amount),
    {
        match self {
            PerformanceAssessmentStrategy::CompareToStandardDca { swapped_amount, .. } => {
                swapped_amount.amount < deposited_amount.amount
            },
        }
    }
}

} // verus!
