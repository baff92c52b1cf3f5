//! The command and query handlers: one per inbound request, each committing
//! all of its writes or none.

pub mod after_fin_swap;
pub mod cancel_bounty;
pub mod create_bounty;
pub mod deposit;
pub mod disburse_escrow;
pub mod execute_trigger;
pub mod get_bounty;
pub mod handle_failed_automation;
pub mod instantiate;
pub mod update_bounty;
