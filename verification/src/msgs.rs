//! The outbound messages a request hands back to its host.
//!
//! The engine never performs a transfer or a contract call itself: each
//! handler returns the messages to issue, and the host reports selected
//! outcomes back through the reply identifiers below.

use vstd::prelude::*;
use crate::coin::Coin;
use crate::math::Decimal;

verus! {

/// Reply carrying the venue's answer to a submitted limit order.
pub const AFTER_LIMIT_ORDER_PLACED_REPLY_ID: u64 = 1;

/// Reply carrying the swap call's outcome.
pub const AFTER_SWAP_REPLY_ID: u64 = 2;

/// Reply carrying one queued post-execution action's outcome.
pub const AFTER_FAILED_AUTOMATION_REPLY_ID: u64 = 3;

/// Reply whose outcome is ignored: a best-effort call that must never block
/// the flow.
pub const FAIL_SILENTLY_REPLY_ID: u64 = 6;

/// When the host must report a message's outcome back.
#[derive(Clone, Copy, PartialEq, Eq, Structural, Debug)]
pub enum ReplyOn {
    Never,
    Always,
    Error,
}

/// What an outbound message asks the host to do. Every transfer this engine
/// issues carries exactly one coin.
#[derive(Debug, PartialEq, Eq)]
pub enum OutMsgBody {
    /// Send `amount` to `to_address`.
    BankSend { to_address: String, amount: Coin },
    /// Call the contract at `contract_addr` with the opaque payload `msg`,
    /// attaching `funds`.
    Execute { contract_addr: String, msg: String, funds: Coin },
    /// Place a swap at the venue: convert `swap_amount` into `target_denom`,
    /// bounded by the slippage tolerance and, when set, the minimum receive
    /// amount.
    Swap {
        contract_addr: String,
        swap_amount: Coin,
        target_denom: String,
        slippage_tolerance: Decimal,
        minimum_receive_amount: Option<u128>,
        route: Option<String>,
    },
    /// Retract the standing limit order `order_idx` at the venue.
    RetractOrder { contract_addr: String, order_idx: u128 },
    /// Withdraw any filled remainder of limit order `order_idx` at the venue.
    WithdrawOrder { contract_addr: String, order_idx: u128 },
}

impl Clone for OutMsgBody {
    fn clone(&self) -> (r: OutMsgBody)
        ensures
            r == *self,
    {
        match self {
            OutMsgBody::BankSend { to_address, amount } => OutMsgBody::BankSend {
                to_address: to_address.clone(),
                amount: amount.clone(),
            },
            OutMsgBody::Execute { contract_addr, msg, funds } => OutMsgBody::Execute {
                contract_addr: contract_addr.clone(),
                msg: msg.clone(),
                funds: funds.clone(),
            },
            OutMsgBody::Swap {
                contract_addr,
                swap_amount,
                target_denom,
                slippage_tolerance,
                minimum_receive_amount,
                route,
            } => OutMsgBody::Swap {
                contract_addr: contract_addr.clone(),
                swap_amount: swap_amount.clone(),
                target_denom: target_denom.clone(),
                slippage_tolerance: *slippage_tolerance,
                minimum_receive_amount: *minimum_receive_amount,
                route: match route {
                    Some(r_) => Some(r_.clone()),
                    None => None,
                },
            },
            OutMsgBody::RetractOrder { contract_addr, order_idx } => OutMsgBody::RetractOrder {
                contract_addr: contract_addr.clone(),
                order_idx: *order_idx,
            },
            OutMsgBody::WithdrawOrder { contract_addr, order_idx } => OutMsgBody::WithdrawOrder {
                contract_addr: contract_addr.clone(),
                order_idx: *order_idx,
            },
        }
    }
}

/// A tradeable pair at the venue.
#[derive(Debug, PartialEq, Eq)]
pub struct Pair {
    pub base_denom: String,
    pub quote_denom: String,
}

impl Clone for Pair {
    fn clone(&self) -> (r: Pair)
        ensures
            r == *self,
    {
        Pair { base_denom: self.base_denom.clone(), quote_denom: self.quote_denom.clone() }
    }
}

/// An outbound message with its reply policy.
#[derive(Debug, PartialEq, Eq)]
pub struct OutMsg {
    pub id: u64,
    pub reply_on: ReplyOn,
    pub body: OutMsgBody,
}

impl Clone for OutMsg {
    fn clone(&self) -> (r: OutMsg)
        ensures
            r == *self,
    {
        OutMsg { id: self.id, reply_on: self.reply_on, body: self.body.clone() }
    }
}

impl OutMsg {
    /// A message whose outcome is not reported back.
    pub fn new(body: OutMsgBody) -> (r: OutMsg)
        ensures
            r == (OutMsg { id: 0, reply_on: ReplyOn::Never, body }),
    {
        OutMsg { id: 0, reply_on: ReplyOn::Never, body }
    }

    /// A message whose outcome is always reported back under `id`.
    pub fn reply_always(body: OutMsgBody, id: u64) -> (r: OutMsg)
        ensures
            r == (OutMsg { id, reply_on: ReplyOn::Always, body }),
    {
        OutMsg { id, reply_on: ReplyOn::Always, body }
    }

    /// A message whose failure alone is reported back under `id`.
    pub fn reply_on_error(body: OutMsgBody, id: u64) -> (r: OutMsg)
        ensures
            r == (OutMsg { id, reply_on: ReplyOn::Error, body }),
    {
        OutMsg { id, reply_on: ReplyOn::Error, body }
    }
}

/// What a handler asks the host to do after its own writes committed.
#[derive(Debug, PartialEq, Eq)]
pub struct Response {
    pub messages: Vec<OutMsg>,
}

impl Response {
    /// A response carrying no messages.
    pub fn new() -> (r: Response)
        ensures
            r.messages@ == Seq::<OutMsg>::empty(),
    {
        Response { messages: Vec::new() }
    }
}

} // verus!
