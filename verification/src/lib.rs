//! A recurring-swap vault engine.
//!
//! Vaults ("bounties") hold a balance of a source denomination and convert it
//! into a target denomination on a schedule. The library owns the vault data
//! model and its lifecycle, the trigger state machine, the
//! execution-continuation protocol that spans the asynchronous swap call, the
//! escrow and performance-fee arithmetic, and the append-only event log.
//! Everything that needs a host (sending funds, calling other contracts,
//! sampling prices) is returned to the caller as plain message values.

pub mod bounty;
pub mod coin;
pub mod config;
pub mod destination;
pub mod disbursement;
pub mod error;
pub mod event;
pub mod fees;
pub mod fmt;
pub mod handlers;
pub mod math;
pub mod msg;
pub mod msgs;
pub mod queries;
pub mod state;
pub mod strategy;
pub mod time;
pub mod trigger;
pub mod validation;
