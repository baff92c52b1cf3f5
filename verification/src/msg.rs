//! Request and response shapes of the command and query surfaces.

use vstd::prelude::*;
use crate::bounty::Bounty;
use crate::coin::Coin;
use crate::config::{Config, FeeCollector};
use crate::event::Event;
use crate::math::Decimal;

verus! {

/// Who sent the inbound request and what funds came with it.
#[derive(Debug)]
pub struct MessageInfo {
    pub sender: String,
    pub funds: Vec<Coin>,
}

/// The settings the engine starts with.
#[derive(Debug)]
pub struct InstantiateMsg {
    pub admin: String,
    pub executors: Vec<String>,
    pub fee_collectors: Vec<FeeCollector>,
    pub automation_fee_percent: Decimal,
    pub paused: bool,
    pub exchange_contract_address: String,
}

/// The settings a migration resets; the same shape as instantiation.
#[derive(Debug)]
pub struct MigrateMsg {
    pub admin: String,
    pub executors: Vec<String>,
    pub fee_collectors: Vec<FeeCollector>,
    pub automation_fee_percent: Decimal,
    pub paused: bool,
    pub exchange_contract_address: String,
}

#[derive(Debug, PartialEq, Eq)]
pub struct ConfigResponse {
    pub config: Config,
}

#[derive(Debug, PartialEq, Eq)]
pub struct BountyResponse {
    pub bounty: Bounty,
}

#[derive(Debug, PartialEq, Eq)]
pub struct BountiesResponse {
    pub bounties: Vec<Bounty>,
}

#[derive(Debug, PartialEq, Eq)]
pub struct EventsResponse {
    pub events: Vec<Event>,
}

#[derive(Debug, PartialEq, Eq)]
pub struct BountyPerformanceResponse {
    pub fee: Coin,
    pub factor: Decimal,
}

#[derive(Debug, PartialEq, Eq)]
pub struct TriggerIdResponse {
    pub trigger_id: u128,
}

#[derive(Debug, PartialEq, Eq)]
pub struct TriggerIdsResponse {
    pub trigger_ids: Vec<u128>,
}

#[derive(Debug, PartialEq, Eq)]
pub struct DisburseEscrowTasksResponse {
    pub bounty_ids: Vec<u128>,
}

} // verus!
