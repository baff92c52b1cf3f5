//! Synchronous request validation. Every check either passes or rejects the
//! request with a definite error, before any state is touched.

use vstd::prelude::*;
use vstd::string::{StringExecFns, StrSliceExecFns};
use crate::bounty::{Bounty, BountyStatus};
use crate::coin::Coin;
use crate::config::Config;
use crate::destination::Destination;
use crate::error::ContractError;
use crate::math::{Decimal, DECIMAL_FRACTIONAL};
use crate::msgs::Pair;
use crate::state::State;

verus! {

/// The most destinations a vault may carry.
pub const MAX_DESTINATIONS: u64 = 10;

/// The longest label a vault may carry, in bytes.
pub const MAX_LABEL_LENGTH: u64 = 100;

/// The page size assumed when a query names none, for validation.
pub const ASSUMED_PAGE_LIMIT: u16 = 30;

/// The one denomination that can be staked through a forwarding instruction.
pub const BOND_DENOM: &'static str = "ukuji";

/// Rejects unless exactly one asset was sent along.
pub fn assert_exactly_one_asset(funds: &Vec<Coin>) -> (r: Result<(), ContractError>)
    ensures
        r == (if funds@.len() == 1 {
            Ok::<(), ContractError>(())
        } else {
            Err::<(), ContractError>(
                ContractError::FundsCountWrong { count: funds@.len() as u64 },
            )
        }),
        funds@.len() <= u64::MAX,
{
    let n = funds.len();
    if n != 1 {
        Err(ContractError::FundsCountWrong { count: n as u64 })
    } else {
        Ok(())
    }
}

/// Rejects a sender other than the configured admin.
pub fn assert_sender_is_admin(state: &State, sender: &String) -> (r: Result<(), ContractError>)
    ensures
        r == (if sender@ == state.config.admin@ {
            Ok::<(), ContractError>(())
        } else {
            Err::<(), ContractError>(ContractError::Unauthorized)
        }),
{
    if *sender == state.config.admin {
        Ok(())
    } else {
        Err(ContractError::Unauthorized)
    }
}

/// Rejects a sender other than the vault's owner.
pub fn asset_sender_is_vault_owner(vault_owner: &String, sender: &String) -> (r: Result<
    (),
    ContractError,
>)
    ensures
        r == (if sender@ == vault_owner@ {
            Ok::<(), ContractError>(())
        } else {
            Err::<(), ContractError>(ContractError::Unauthorized)
        }),
{
    if *sender == *vault_owner {
        Ok(())
    } else {
        Err(ContractError::Unauthorized)
    }
}

/// Rejects a sender that is neither the admin nor the vault's owner.
pub fn assert_sender_is_admin_or_vault_owner(
    state: &State,
    vault_owner: &String,
    sender: &String,
) -> (r: Result<(), ContractError>)
    ensures
        r == (if sender@ == state.config.admin@ || sender@ == vault_owner@ {
            Ok::<(), ContractError>(())
        } else {
            Err::<(), ContractError>(ContractError::Unauthorized)
        }),
{
    if *sender == state.config.admin || *sender == *vault_owner {
        Ok(())
    } else {
        Err(ContractError::Unauthorized)
    }
}

/// Whether the sender may run due work: the admin or a configured executor.
pub open spec fn is_executor(config: Config, sender: Seq<char>) -> bool {
    sender == config.admin@ || exists|i: int|
        0 <= i < config.executors@.len() && (#[trigger] config.executors@[i])@ == sender
}

/// Rejects a sender that may not run due work.
pub fn assert_sender_is_executor(state: &State, sender: &String) -> (r: Result<(), ContractError>)
    ensures
        r == (if is_executor(state.config, sender@) {
            Ok::<(), ContractError>(())
        } else {
            Err::<(), ContractError>(ContractError::Unauthorized)
        }),
{
    if *sender == state.config.admin {
        return Ok(());
    }
    let mut i: usize = 0;
    while i < state.config.executors.len()
        invariant
            i <= state.config.executors@.len(),
            forall|j: int|
                0 <= j < i ==> (#[trigger] state.config.executors@[j])@ != sender@,
        decreases state.config.executors@.len() - i,
    {
        if state.config.executors[i] == *sender {
            return Ok(());
        }
        i = i + 1;
    }
    Err(ContractError::Unauthorized)
}

/// Rejects any work on a cancelled vault: cancellation is terminal.
pub fn assert_vault_is_not_cancelled(bounty: &Bounty) -> (r: Result<(), ContractError>)
    ensures
        r == (if bounty.status != BountyStatus::Cancelled {
            Ok::<(), ContractError>(())
        } else {
            Err::<(), ContractError>(ContractError::BountyCancelled)
        }),
{
    if bounty.status == BountyStatus::Cancelled {
        Err(ContractError::BountyCancelled)
    } else {
        Ok(())
    }
}

/// Rejects a paused engine.
pub fn assert_contract_is_not_paused(state: &State) -> (r: Result<(), ContractError>)
    ensures
        r == (if !state.config.paused {
            Ok::<(), ContractError>(())
        } else {
            Err::<(), ContractError>(ContractError::Paused)
        }),
{
    if state.config.paused {
        Err(ContractError::Paused)
    } else {
        Ok(())
    }
}

/// Rejects a swap amount the starting balance cannot cover once.
pub fn assert_swap_amount_is_less_than_or_equal_to_balance(
    swap_amount: u128,
    starting_balance: &Coin,
) -> (r: Result<(), ContractError>)
    ensures
        r == (if starting_balance.amount >= swap_amount {
            Ok::<(), ContractError>(())
        } else {
            Err::<(), ContractError>(
                ContractError::SwapAmountExceedsBalance {
                    swap_amount,
                    balance: starting_balance.amount,
                },
            )
        }),
{
    if starting_balance.amount < swap_amount {
        Err(
            ContractError::SwapAmountExceedsBalance {
                swap_amount,
                balance: starting_balance.amount,
            },
        )
    } else {
        Ok(())
    }
}

/// Rejects a deposit whose denomination is not the vault's source
/// denomination.
pub fn assert_deposited_denom_matches_send_denom(deposit_denom: String, send_denom: String) -> (r:
    Result<(), ContractError>)
    ensures
        r == (if deposit_denom@ == send_denom@ {
            Ok::<(), ContractError>(())
        } else {
            Err::<(), ContractError>(
                ContractError::DenomMismatch { received: deposit_denom, needed: send_denom },
            )
        }),
{
    if deposit_denom == send_denom {
        Ok(())
    } else {
        Err(ContractError::DenomMismatch { received: deposit_denom, needed: send_denom })
    }
}

/// Rejects a send denomination that belongs to neither side of the pair.
pub fn assert_send_denom_is_in_pair_denoms(pair: Pair, send_denom: String) -> (r: Result<
    (),
    ContractError,
>)
    ensures
        r == (if send_denom@ == pair.base_denom@ || send_denom@ == pair.quote_denom@ {
            Ok::<(), ContractError>(())
        } else {
            Err::<(), ContractError>(
                ContractError::SendDenomNotInPair {
                    denom: send_denom,
                    base: pair.base_denom,
                    quote: pair.quote_denom,
                },
            )
        }),
{
    if send_denom == pair.base_denom || send_denom == pair.quote_denom {
        Ok(())
    } else {
        Err(
            ContractError::SendDenomNotInPair {
                denom: send_denom,
                base: pair.base_denom,
                quote: pair.quote_denom,
            },
        )
    }
}

/// Rejects a start time that already passed.
pub fn assert_target_start_time_is_in_future(current_time: u64, target_start_time: u64) -> (r:
    Result<(), ContractError>)
    ensures
        r == (if current_time <= target_start_time {
            Ok::<(), ContractError>(())
        } else {
            Err::<(), ContractError>(ContractError::StartTimeInPast)
        }),
{
    if current_time > target_start_time {
        Err(ContractError::StartTimeInPast)
    } else {
        Ok(())
    }
}

/// Rejects an execution attempt before the trigger's target time.
pub fn assert_target_time_is_in_past(current_time: u64, target_time: u64) -> (r: Result<
    (),
    ContractError,
>)
    ensures
        r == (if current_time >= target_time {
            Ok::<(), ContractError>(())
        } else {
            Err::<(), ContractError>(ContractError::TriggerNotDue)
        }),
{
    if current_time < target_time {
        Err(ContractError::TriggerNotDue)
    } else {
        Ok(())
    }
}

/// Rejects more destinations than the engine fans out to.
pub fn assert_destinations_limit_is_not_breached(destinations: &Vec<Destination>) -> (r: Result<
    (),
    ContractError,
>)
    ensures
        r == (if destinations@.len() <= MAX_DESTINATIONS {
            Ok::<(), ContractError>(())
        } else {
            Err::<(), ContractError>(ContractError::TooManyDestinations)
        }),
{
    if destinations.len() > 10 {
        Err(ContractError::TooManyDestinations)
    } else {
        Ok(())
    }
}

/// The destinations' allocations added up, in atomic units.
pub open spec fn allocation_total(s: Seq<Destination>) -> int
    decreases s.len(),
{
    if s.len() == 0 {
        0
    } else {
        allocation_total(s.drop_last()) + s.last().allocation.atomics
    }
}

/// A longer list of destinations allocates at least as much.
proof fn lemma_allocation_total_prefix(s: Seq<Destination>, i: int)
    requires
        0 <= i <= s.len(),
    ensures
        allocation_total(s.subrange(0, i)) <= allocation_total(s),
    decreases s.len() - i,
{
    if i == s.len() {
        assert(s.subrange(0, i) =~= s);
    } else {
        assert(s.subrange(0, i + 1).drop_last() =~= s.subrange(0, i));
        assert(allocation_total(s.subrange(0, i + 1)) == allocation_total(s.subrange(0, i))
            + s[i].allocation.atomics);
        lemma_allocation_total_prefix(s, i + 1);
    }
}

/// Rejects destinations whose allocations do not add up to exactly one.
pub fn assert_destination_allocations_add_up_to_one(destinations: &Vec<Destination>) -> (r: Result<
    (),
    ContractError,
>)
    ensures
        r == (if allocation_total(destinations@) == DECIMAL_FRACTIONAL {
            Ok::<(), ContractError>(())
        } else {
            Err::<(), ContractError>(ContractError::AllocationsNotOne)
        }),
{
    let mut total: u128 = 0;
    let mut i: usize = 0;
    while i < destinations.len()
        invariant
            i <= destinations@.len(),
            total == allocation_total(destinations@.subrange(0, i as int)),
        decreases destinations@.len() - i,
    {
        proof {
            assert(destinations@.subrange(0, i as int + 1).drop_last() =~= destinations@.subrange(
                0,
                i as int,
            ));
        }
        match total.checked_add(destinations[i].allocation.atomics) {
            Some(t) => {
                total = t;
            },
            None => {
                proof {
                    lemma_allocation_total_prefix(destinations@, i as int + 1);
                }
                return Err(ContractError::AllocationsNotOne);
            },
        }
        i = i + 1;
    }
    proof {
        assert(destinations@.subrange(0, destinations@.len() as int) =~= destinations@);
    }
    if total != DECIMAL_FRACTIONAL {
        Err(ContractError::AllocationsNotOne)
    } else {
        Ok(())
    }
}

/// Rejects a destination that would receive nothing.
pub fn assert_no_destination_allocations_are_zero(destinations: &Vec<Destination>) -> (r: Result<
    (),
    ContractError,
>)
    ensures
        r == (if forall|i: int|
            0 <= i < destinations@.len() ==> (#[trigger] destinations@[i]).allocation.atomics > 0 {
            Ok::<(), ContractError>(())
        } else {
            Err::<(), ContractError>(ContractError::ZeroAllocation)
        }),
{
    let mut i: usize = 0;
    while i < destinations.len()
        invariant
            i <= destinations@.len(),
            forall|j: int|
                0 <= j < i ==> (#[trigger] destinations@[j]).allocation.atomics > 0,
        decreases destinations@.len() - i,
    {
        if destinations[i].allocation.atomics == 0 {
            return Err(ContractError::ZeroAllocation);
        }
        i = i + 1;
    }
    Ok(())
}

/// Rejects a label longer than the engine stores.
pub fn assert_label_is_no_longer_than_100_characters(label: &String) -> (r: Result<
    (),
    ContractError,
>)
    ensures
        r == (if label@.len() <= MAX_LABEL_LENGTH {
            Ok::<(), ContractError>(())
        } else {
            Err::<(), ContractError>(ContractError::LabelTooLong)
        }),
{
    if label.as_str().unicode_len() > 100 {
        Err(ContractError::LabelTooLong)
    } else {
        Ok(())
    }
}

/// Rejects a slippage tolerance above one.
pub fn assert_slippage_tolerance_is_less_than_or_equal_to_one(slippage_tolerance: Decimal) -> (r:
    Result<(), ContractError>)
    ensures
        r == (if slippage_tolerance.atomics <= DECIMAL_FRACTIONAL {
            Ok::<(), ContractError>(())
        } else {
            Err::<(), ContractError>(ContractError::SlippageToleranceTooHigh)
        }),
{
    if slippage_tolerance.atomics > DECIMAL_FRACTIONAL {
        Err(ContractError::SlippageToleranceTooHigh)
    } else {
        Ok(())
    }
}

/// Rejects a weighted-scale multiplier above ten.
pub fn assert_weighted_scale_multiplier_is_no_more_than_10(multiplier: Decimal) -> (r: Result<
    (),
    ContractError,
>)
    ensures
        r == (if multiplier.atomics <= 10 * DECIMAL_FRACTIONAL {
            Ok::<(), ContractError>(())
        } else {
            Err::<(), ContractError>(ContractError::MultiplierTooHigh)
        }),
{
    if multiplier.atomics > 10 * DECIMAL_FRACTIONAL {
        Err(ContractError::MultiplierTooHigh)
    } else {
        Ok(())
    }
}

/// Rejects a page limit above the configured bound; an unnamed limit counts
/// as thirty.
pub fn assert_page_limit_is_valid(state: &State, limit: Option<u16>) -> (r: Result<
    (),
    ContractError,
>)
    ensures
        r == (if (match limit {
            Some(l) => l as int,
            None => ASSUMED_PAGE_LIMIT as int,
        }) <= state.config.page_limit {
            Ok::<(), ContractError>(())
        } else {
            Err::<(), ContractError>(
                ContractError::PageLimitTooLarge { max: state.config.page_limit },
            )
        }),
{
    let l: u16 = match limit {
        Some(l) => l,
        None => ASSUMED_PAGE_LIMIT,
    };
    if l > state.config.page_limit {
        Err(ContractError::PageLimitTooLarge { max: state.config.page_limit })
    } else {
        Ok(())
    }
}

/// Rejects a denomination that cannot be staked.
pub fn assert_denom_is_bond_denom(denom: String) -> (r: Result<(), ContractError>)
    ensures
        r == (if denom@ == BOND_DENOM@ {
            Ok::<(), ContractError>(())
        } else {
            Err::<(), ContractError>(ContractError::NotBondDenom { denom })
        }),
{
    let bond = String::from_str(BOND_DENOM);
    if denom == bond {
        Ok(())
    } else {
        Err(ContractError::NotBondDenom { denom })
    }
}

/// Whether any destination carries a forwarding instruction.
pub open spec fn any_destination_forwards(s: Seq<Destination>) -> bool {
    exists|i: int| 0 <= i < s.len() && (#[trigger] s[i]).msg is Some
}

/// Rejects forwarding destinations unless the received denomination can be
/// staked.
pub fn assert_delegation_denom_is_stakeable(
    destinations: &Vec<Destination>,
    receive_denom: String,
) -> (r: Result<(), ContractError>)
    ensures
        r == (if !any_destination_forwards(destinations@) || receive_denom@ == BOND_DENOM@ {
            Ok::<(), ContractError>(())
        } else {
            Err::<(), ContractError>(ContractError::NotBondDenom { denom: receive_denom })
        }),
{
    let mut i: usize = 0;
    let mut forwards = false;
    while i < destinations.len()
        invariant
            i <= destinations@.len(),
            forwards == exists|j: int|
                0 <= j < i && (#[trigger] destinations@[j]).msg is Some,
        decreases destinations@.len() - i,
    {
        if destinations[i].msg.is_some() {
            forwards = true;
        }
        i = i + 1;
    }
    if forwards {
        assert_denom_is_bond_denom(receive_denom)
    } else {
        Ok(())
    }
}

} // verus!
