//! The append-only event log's records.

use vstd::prelude::*;
use crate::coin::Coin;
use crate::destination::{clone_destinations, Destination};
use crate::math::Decimal;
use crate::msgs::OutMsg;
use crate::strategy::SwapAdjustmentStrategy;
use crate::time::TimeInterval;
use crate::trigger::TriggerConfiguration;

verus! {

/// The height and time of the block a request ran in.
#[derive(Clone, Copy, PartialEq, Eq, Structural, Debug)]
pub struct BlockInfo {
    pub height: u64,
    pub time: u64,
}

/// Why an execution was skipped, classified from the venue's error text.
#[derive(Clone, Copy, PartialEq, Eq, Structural, Debug)]
pub enum ExecutionSkippedReason {
    SlippageToleranceExceeded,
    PriceThresholdExceeded { price: Decimal },
    InsufficientFunds,
    UnknownFailure,
}

/// One recorded change of a vault field: the value before and after.
#[derive(Debug, PartialEq, Eq)]
#[allow(inconsistent_fields)]
pub enum Update {
    SwapAmount { old_value: u128, new_value: u128 },
    MinimumReceiveAmount { old_value: Option<u128>, new_value: Option<u128> },
    Strategy {
        old_value: Option<SwapAdjustmentStrategy>,
        new_value: Option<SwapAdjustmentStrategy>,
    },
    Label { old_value: Option<String>, new_value: String },
    Destinations { old_value: Vec<Destination>, new_value: Vec<Destination> },
    SlippageTolerance { old_value: Decimal, new_value: Decimal },
    Interval { old_value: TimeInterval, new_value: TimeInterval },
    Trigger { old_value: TriggerConfiguration, new_value: TriggerConfiguration },
}

/// Whether `b` holds the same values as `a`: equality, with destination lists
/// compared element by element.
pub open spec fn update_copies(a: Update, b: Update) -> bool {
    match (a, b) {
        (
            Update::Destinations { old_value: ao, new_value: an },
            Update::Destinations { old_value: bo, new_value: bn },
        ) => ao@ == bo@ && an@ == bn@,
        _ => a == b,
    }
}

impl Clone for Update {
    fn clone(&self) -> (r: Update)
        ensures
            update_copies(*self, r),
    {
        match self {
            Update::SwapAmount { old_value, new_value } => Update::SwapAmount {
                old_value: *old_value,
                new_value: *new_value,
            },
            Update::MinimumReceiveAmount { old_value, new_value } => Update::MinimumReceiveAmount {
                old_value: *old_value,
                new_value: *new_value,
            },
            Update::Strategy { old_value, new_value } => Update::Strategy {
                old_value: *old_value,
                new_value: *new_value,
            },
            Update::Label { old_value, new_value } => Update::Label {
                old_value: match old_value {
                    Some(l) => Some(l.clone()),
                    None => None,
                },
                new_value: new_value.clone(),
            },
            Update::Destinations { old_value, new_value } => Update::Destinations {
                old_value: clone_destinations(old_value),
                new_value: clone_destinations(new_value),
            },
            Update::SlippageTolerance { old_value, new_value } => Update::SlippageTolerance {
                old_value: *old_value,
                new_value: *new_value,
            },
            Update::Interval { old_value, new_value } => Update::Interval {
                old_value: *old_value,
                new_value: *new_value,
            },
            Update::Trigger { old_value, new_value } => Update::Trigger {
                old_value: *old_value,
                new_value: *new_value,
            },
        }
    }
}

/// The tagged payload of an event.
#[derive(Debug, PartialEq, Eq)]
pub enum EventData {
    BountyFundsDeposited { amount: Coin },
    BountyExecutionTriggered { base_denom: String, quote_denom: String, asset_price: Decimal },
    BountyExecutionCompleted { sent: Coin, received: Coin, fee: Coin },
    BountyExecutionSkipped { reason: ExecutionSkippedReason },
    BountyCancelled {},
    BountyEscrowDisbursed { amount_disbursed: Coin, performance_fee: Coin },
    BountyPostExecutionActionFailed { msg: OutMsg, funds: Coin },
    BountyUpdated { updates: Vec<Update> },
}

/// Whether `b` holds the same values as `a`: equality, with update lists
/// compared entry by entry.
pub open spec fn event_data_copies(a: EventData, b: EventData) -> bool {
    match (a, b) {
        (EventData::BountyUpdated { updates: au }, EventData::BountyUpdated { updates: bu }) => {
            au@.len() == bu@.len() && forall|i: int|
                0 <= i < au@.len() ==> update_copies(au@[i], #[trigger] bu@[i])
        },
        _ => a == b,
    }
}

impl Clone for EventData {
    fn clone(&self) -> (r: EventData)
        ensures
            event_data_copies(*self, r),
    {
        match self {
            EventData::BountyFundsDeposited { amount } => EventData::BountyFundsDeposited {
                amount: amount.clone(),
            },
            EventData::BountyExecutionTriggered {
                base_denom,
                quote_denom,
                asset_price,
            } => EventData::BountyExecutionTriggered {
                base_denom: base_denom.clone(),
                quote_denom: quote_denom.clone(),
                asset_price: *asset_price,
            },
            EventData::BountyExecutionCompleted { sent, received, fee } => {
                EventData::BountyExecutionCompleted {
                    sent: sent.clone(),
                    received: received.clone(),
                    fee: fee.clone(),
                }
            },
            EventData::BountyExecutionSkipped { reason } => EventData::BountyExecutionSkipped {
                reason: *reason,
            },
            EventData::BountyCancelled {  } => EventData::BountyCancelled {  },
            EventData::BountyEscrowDisbursed { amount_disbursed, performance_fee } => {
                EventData::BountyEscrowDisbursed {
                    amount_disbursed: amount_disbursed.clone(),
                    performance_fee: performance_fee.clone(),
                }
            },
            EventData::BountyPostExecutionActionFailed { msg, funds } => {
                EventData::BountyPostExecutionActionFailed {
                    msg: msg.clone(),
                    funds: funds.clone(),
                }
            },
            EventData::BountyUpdated { updates } => {
                let mut out: Vec<Update> = Vec::new();
                let mut i: usize = 0;
                while i < updates.len()
                    invariant
                        i <= updates.len(),
                        out@.len() == i,
                        forall|j: int| 0 <= j < i ==> update_copies(updates@[j], #[trigger] out@[j]),
                    decreases updates.len() - i,
                {
                    out.push(updates[i].clone());
                    i = i + 1;
                }
                EventData::BountyUpdated { updates: out }
            },
        }
    }
}

/// One record of the append-only log. Events are never mutated or deleted;
/// ids are assigned by a global monotonic counter.
#[derive(Debug, PartialEq, Eq)]
pub struct Event {
    pub id: u64,
    pub resource_id: u128,
    pub timestamp: u64,
    pub block_height: u64,
    pub data: EventData,
}

/// Whether `b` holds the same values as `a`.
pub open spec fn event_copies(a: Event, b: Event) -> bool {
    b.id == a.id && b.resource_id == a.resource_id && b.timestamp == a.timestamp && b.block_height
        == a.block_height && event_data_copies(a.data, b.data)
}

impl Clone for Event {
    fn clone(&self) -> (r: Event)
        ensures
            event_copies(*self, r),
    {
        Event {
            id: self.id,
            resource_id: self.resource_id,
            timestamp: self.timestamp,
            block_height: self.block_height,
            data: self.data.clone(),
        }
    }
}

/// An event awaiting its id from the log's counter.
#[derive(Debug, PartialEq, Eq)]
pub struct EventBuilder {
    pub resource_id: u128,
    pub timestamp: u64,
    pub block_height: u64,
    pub data: EventData,
}

impl EventBuilder {
    /// Stamps the payload with the resource it concerns and the block it
    /// happened in.
    pub fn new(resource_id: u128, block: BlockInfo, data: EventData) -> (r: EventBuilder)
        ensures
            r == (EventBuilder {
                resource_id,
                timestamp: block.time,
                block_height: block.height,
                data,
            }),
    {
        EventBuilder { resource_id, timestamp: block.time, block_height: block.height, data }
    }

    /// Fixes the record under the id the log assigned.
    pub fn build(self, id: u64) -> (r: Event)
        ensures
            r == (Event {
                id,
                resource_id: self.resource_id,
                timestamp: self.timestamp,
                block_height: self.block_height,
                data: self.data,
            }),
    {
        Event {
            id,
            resource_id: self.resource_id,
            timestamp: self.timestamp,
            block_height: self.block_height,
            data: self.data,
        }
    }
}

} // verus!
