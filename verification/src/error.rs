//! The errors a request can be rejected with, and their exact texts.

use vstd::prelude::*;
use vstd::string::StringExecFns;
use crate::fmt::{dec_str, push_u128};
use crate::math::MathError;

verus! {

/// Why a request was rejected. Validation and precondition failures reject the
/// request synchronously and leave the state untouched.
#[derive(Debug, PartialEq, Eq)]
pub enum ContractError {
    Unauthorized,
    /// A deposit carried no asset, or more than one.
    FundsCountWrong { count: u64 },
    IncorrectOwner { bounty_id: u128 },
    BountyCancelled,
    DenomMismatch { received: String, needed: String },
    SwapAmountExceedsBalance { swap_amount: u128, balance: u128 },
    StartTimeInPast,
    TriggerNotDue,
    TriggerMissing { bounty_id: u128 },
    TooManyDestinations,
    AllocationsNotOne,
    ZeroAllocation,
    LabelTooLong,
    SlippageToleranceTooHigh,
    IntervalTooSmall,
    SwapAmountWithMinimumReceive,
    SwapAmountWithStrategy,
    StrategyChangeInvalid,
    Paused,
    PageLimitTooLarge { max: u16 },
    EscrowNotDue { due: u64 },
    NoPerformanceStrategy { bounty_id: u128 },
    BountyNotFound { bounty_id: u128 },
    NotBondDenom { denom: String },
    AddressInvalid { address: String },
    SendDenomNotInPair { denom: String, base: String, quote: String },
    MultiplierTooHigh,
    ZeroSwapAmount,
    FeePercentTooHigh,
    CacheMissing,
    Math { error: MathError },
}

impl ContractError {
    /// The text of the error, as surfaced to the caller.
    pub open spec fn message_spec(self) -> Seq<char> {
        match self {
            ContractError::Unauthorized => "Unauthorized"@,
            ContractError::FundsCountWrong { count } => "Error: received "@ + dec_str(count as nat)
                + " denoms but required exactly 1"@,
            ContractError::IncorrectOwner { bounty_id } => "Error: provided an incorrect owner address for bounty id "@
                + dec_str(bounty_id as nat),
            ContractError::BountyCancelled => "Error: bounty is already cancelled"@,
            ContractError::DenomMismatch { received, needed } => "Error: received asset with denom "@
                + received@ + ", but needed "@ + needed@,
            ContractError::SwapAmountExceedsBalance { swap_amount, balance } => "Error: swap amount of "@
                + dec_str(swap_amount as nat) + " is less than the starting balance "@ + dec_str(
                balance as nat,
            ),
            ContractError::StartTimeInPast => "Error: target_start_time_utc_seconds must be some time in the future"@,
            ContractError::TriggerNotDue => "Error: trigger execution time has not yet elapsed"@,
            ContractError::TriggerMissing { bounty_id } => "Error: no trigger exists for bounty id "@
                + dec_str(bounty_id as nat),
            ContractError::TooManyDestinations => "Error: no more than 10 destinations can be provided"@,
            ContractError::AllocationsNotOne => "Error: destination allocations must add up to 1"@,
            ContractError::ZeroAllocation => "Error: all destination allocations must be greater than 0"@,
            ContractError::LabelTooLong => "Error: Bounty label cannot be longer than 100 characters"@,
            ContractError::SlippageToleranceTooHigh => "Error: slippage tolerance must be less than or equal to 1"@,
            ContractError::IntervalTooSmall => "Error: custom time interval must be at least 60 seconds"@,
            ContractError::SwapAmountWithMinimumReceive => "Error: cannot update swap amount and minimum receive amount at the same time."@,
            ContractError::SwapAmountWithStrategy => "Error: cannot update swap amount and swap adjustment strategy at the same time."@,
            ContractError::StrategyChangeInvalid => "Error: cannot update swap adjustment strategy"@,
            ContractError::Paused => "Error: contract is paused"@,
            ContractError::PageLimitTooLarge { max } => "Generic error: limit cannot be greater than "@
                + dec_str(max as nat) + "."@,
            ContractError::EscrowNotDue { due } => "Error: Escrow is not available to be disbursed until "@
                + dec_str(due as nat),
            ContractError::NoPerformanceStrategy { bounty_id } => "Generic error: Bounty "@
                + dec_str(bounty_id as nat) + " does not have a performance assessment strategy"@,
            ContractError::BountyNotFound { bounty_id } => "Generic error: bounty "@ + dec_str(
                bounty_id as nat,
            ) + " not found"@,
            ContractError::NotBondDenom { denom } => "Error: "@ + denom@
                + " is not the bond denomination"@,
            ContractError::AddressInvalid { address } => "Error: address "@ + address@
                + " is invalid"@,
            ContractError::SendDenomNotInPair { denom, base, quote } => "Error: send denom "@
                + denom@ + " does not match pair base denom "@ + base@ + " or quote denom "@
                + quote@,
            ContractError::MultiplierTooHigh => "Error: weighted scale multiplier must be no more than 10"@,
            ContractError::ZeroSwapAmount => "Error: swap amount must be greater than 0"@,
            ContractError::FeePercentTooHigh => "Error: automation fee percent must be less than or equal to 1"@,
            ContractError::CacheMissing => "Error: no operation is awaiting a result"@,
            ContractError::Math { error } => "Error: arithmetic failed"@,
        }
    }

    /// Renders the error's text.
    pub fn message(&self) -> (r: String)
        ensures
            r@ == self.message_spec(),
    {
        match self {
            ContractError::Unauthorized => {
                proof {
                    reveal_strlit("Unauthorized");
                }
                String::from_str("Unauthorized")
            },
            ContractError::FundsCountWrong { count } => {
                proof {
                    reveal_strlit("Error: received ");
                    reveal_strlit(" denoms but required exactly 1");
                }
                let mut s = String::from_str("Error: received ");
                push_u128(&mut s, *count as u128);
                s.append(" denoms but required exactly 1");
                proof {
                    assert(s@ =~= self.message_spec());
                }
                s
            },
            ContractError::IncorrectOwner { bounty_id } => {
                proof {
                    reveal_strlit("Error: provided an incorrect owner address for bounty id ");
                }
                let mut s = String::from_str(
                    "Error: provided an incorrect owner address for bounty id ",
                );
                push_u128(&mut s, *bounty_id);
                proof {
                    assert(s@ =~= self.message_spec());
                }
                s
            },
            ContractError::BountyCancelled => {
                proof {
                    reveal_strlit("Error: bounty is already cancelled");
                }
                String::from_str("Error: bounty is already cancelled")
            },
            ContractError::DenomMismatch { received, needed } => {
                proof {
                    reveal_strlit("Error: received asset with denom ");
                    reveal_strlit(", but needed ");
                }
                let mut s = String::from_str("Error: received asset with denom ");
                s.append(received.as_str());
                s.append(", but needed ");
                s.append(needed.as_str());
                proof {
                    assert(s@ =~= self.message_spec());
                }
                s
            },
            ContractError::SwapAmountExceedsBalance { swap_amount, balance } => {
                proof {
                    reveal_strlit("Error: swap amount of ");
                    reveal_strlit(" is less than the starting balance ");
                }
                let mut s = String::from_str("Error: swap amount of ");
                push_u128(&mut s, *swap_amount);
                s.append(" is less than the starting balance ");
                push_u128(&mut s, *balance);
                proof {
                    assert(s@ =~= self.message_spec());
                }
                s
            },
            ContractError::StartTimeInPast => {
                proof {
                    reveal_strlit(
                        "Error: target_start_time_utc_seconds must be some time in the future",
                    );
                }
                String::from_str(
                    "Error: target_start_time_utc_seconds must be some time in the future",
                )
            },
            ContractError::TriggerNotDue => {
                proof {
                    reveal_strlit("Error: trigger execution time has not yet elapsed");
                }
                String::from_str("Error: trigger execution time has not yet elapsed")
            },
            ContractError::TriggerMissing { bounty_id } => {
                proof {
                    reveal_strlit("Error: no trigger exists for bounty id ");
                }
                let mut s = String::from_str("Error: no trigger exists for bounty id ");
                push_u128(&mut s, *bounty_id);
                proof {
                    assert(s@ =~= self.message_spec());
                }
                s
            },
            ContractError::TooManyDestinations => {
                proof {
                    reveal_strlit("Error: no more than 10 destinations can be provided");
                }
                String::from_str("Error: no more than 10 destinations can be provided")
            },
            ContractError::AllocationsNotOne => {
                proof {
                    reveal_strlit("Error: destination allocations must add up to 1");
                }
                String::from_str("Error: destination allocations must add up to 1")
            },
            ContractError::ZeroAllocation => {
                proof {
                    reveal_strlit("Error: all destination allocations must be greater than 0");
                }
                String::from_str("Error: all destination allocations must be greater than 0")
            },
            ContractError::LabelTooLong => {
                proof {
                    reveal_strlit("Error: Bounty label cannot be longer than 100 characters");
                }
                String::from_str("Error: Bounty label cannot be longer than 100 characters")
            },
            ContractError::SlippageToleranceTooHigh => {
                proof {
                    reveal_strlit("Error: slippage tolerance must be less than or equal to 1");
                }
                String::from_str("Error: slippage tolerance must be less than or equal to 1")
            },
            ContractError::IntervalTooSmall => {
                proof {
                    reveal_strlit("Error: custom time interval must be at least 60 seconds");
                }
                String::from_str("Error: custom time interval must be at least 60 seconds")
            },
            ContractError::SwapAmountWithMinimumReceive => {
                proof {
                    reveal_strlit(
                        "Error: cannot update swap amount and minimum receive amount at the same time.",
                    );
                }
                String::from_str(
                    "Error: cannot update swap amount and minimum receive amount at the same time.",
                )
            },
            ContractError::SwapAmountWithStrategy => {
                proof {
                    reveal_strlit(
                        "Error: cannot update swap amount and swap adjustment strategy at the same time.",
                    );
                }
                String::from_str(
                    "Error: cannot update swap amount and swap adjustment strategy at the same time.",
                )
            },
            ContractError::StrategyChangeInvalid => {
                proof {
                    reveal_strlit("Error: cannot update swap adjustment strategy");
                }
                String::from_str("Error: cannot update swap adjustment strategy")
            },
            ContractError::Paused => {
                proof {
                    reveal_strlit("Error: contract is paused");
                }
                String::from_str("Error: contract is paused")
            },
            ContractError::PageLimitTooLarge { max } => {
                proof {
                    reveal_strlit("Generic error: limit cannot be greater than ");
                    reveal_strlit(".");
                }
                let mut s = String::from_str("Generic error: limit cannot be greater than ");
                push_u128(&mut s, *max as u128);
                s.append(".");
                proof {
                    assert(s@ =~= self.message_spec());
                }
                s
            },
            ContractError::EscrowNotDue { due } => {
                proof {
                    reveal_strlit("Error: Escrow is not available to be disbursed until ");
                }
                let mut s = String::from_str(
                    "Error: Escrow is not available to be disbursed until ",
                );
                push_u128(&mut s, *due as u128);
                proof {
                    assert(s@ =~= self.message_spec());
                }
                s
            },
            ContractError::NoPerformanceStrategy { bounty_id } => {
                proof {
                    reveal_strlit("Generic error: Bounty ");
                    reveal_strlit(" does not have a performance assessment strategy");
                }
                let mut s = String::from_str("Generic error: Bounty ");
                push_u128(&mut s, *bounty_id);
                s.append(" does not have a performance assessment strategy");
                proof {
                    assert(s@ =~= self.message_spec());
                }
                s
            },
            ContractError::BountyNotFound { bounty_id } => {
                proof {
                    reveal_strlit("Generic error: bounty ");
                    reveal_strlit(" not found");
                }
                let mut s = String::from_str("Generic error: bounty ");
                push_u128(&mut s, *bounty_id);
                s.append(" not found");
                proof {
                    assert(s@ =~= self.message_spec());
                }
                s
            },
            ContractError::NotBondDenom { denom } => {
                proof {
                    reveal_strlit("Error: ");
                    reveal_strlit(" is not the bond denomination");
                }
                let mut s = String::from_str("Error: ");
                s.append(denom.as_str());
                s.append(" is not the bond denomination");
                proof {
                    assert(s@ =~= self.message_spec());
                }
                s
            },
            ContractError::AddressInvalid { address } => {
                proof {
                    reveal_strlit("Error: address ");
                    reveal_strlit(" is invalid");
                }
                let mut s = String::from_str("Error: address ");
                s.append(address.as_str());
                s.append(" is invalid");
                proof {
                    assert(s@ =~= self.message_spec());
                }
                s
            },
            ContractError::SendDenomNotInPair { denom, base, quote } => {
                proof {
                    reveal_strlit("Error: send denom ");
                    reveal_strlit(" does not match pair base denom ");
                    reveal_strlit(" or quote denom ");
                }
                let mut s = String::from_str("Error: send denom ");
                s.append(denom.as_str());
                s.append(" does not match pair base denom ");
                s.append(base.as_str());
                s.append(" or quote denom ");
                s.append(quote.as_str());
                proof {
                    assert(s@ =~= self.message_spec());
                }
                s
            },
            ContractError::MultiplierTooHigh => {
                proof {
                    reveal_strlit("Error: weighted scale multiplier must be no more than 10");
                }
                String::from_str("Error: weighted scale multiplier must be no more than 10")
            },
            ContractError::ZeroSwapAmount => {
                proof {
                    reveal_strlit("Error: swap amount must be greater than 0");
                }
                String::from_str("Error: swap amount must be greater than 0")
            },
            ContractError::FeePercentTooHigh => {
                proof {
                    reveal_strlit(
                        "Error: automation fee percent must be less than or equal to 1",
                    );
                }
                String::from_str("Error: automation fee percent must be less than or equal to 1")
            },
            ContractError::CacheMissing => {
                proof {
                    reveal_strlit("Error: no operation is awaiting a result");
                }
                String::from_str("Error: no operation is awaiting a result")
            },
            ContractError::Math { error } => {
                proof {
                    reveal_strlit("Error: arithmetic failed");
                }
                String::from_str("Error: arithmetic failed")
            },
        }
    }
}

} // verus!
