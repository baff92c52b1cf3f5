//! Trigger records: the condition that makes a vault's next execution due.

use vstd::prelude::*;
use crate::math::Decimal;

verus! {

/// The condition under which a vault fires. Each vault owns at most one
/// trigger; it is removed when execution begins and re-created when the swap's
/// outcome arrives.
#[derive(Clone, Copy, PartialEq, Eq, Structural, Debug)]
pub enum TriggerConfiguration {
    /// Fires once the current time reaches `target_time` (UTC seconds).
    Time { target_time: u64 },
    /// A standing limit order at the venue; `order_idx` is the venue's handle
    /// for retraction and withdrawal.
    Price { target_price: Decimal, order_idx: u128 },
}

/// A trigger together with the vault it belongs to.
#[derive(Clone, Copy, PartialEq, Eq, Structural, Debug)]
pub struct Trigger {
    pub bounty_id: u128,
    pub configuration: TriggerConfiguration,
}

} // verus!
