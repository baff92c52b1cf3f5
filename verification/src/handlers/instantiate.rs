//! Bringing the engine up, and changing its settings.

use vstd::prelude::*;
use crate::config::{Config, FeeCollector};
use crate::error::ContractError;
use crate::math::{Decimal, DECIMAL_FRACTIONAL};
use crate::msg::{InstantiateMsg, MessageInfo, MigrateMsg};
use crate::msgs::Response;
use crate::state::State;
use crate::validation::assert_sender_is_admin;

verus! {

/// The largest page a query may ever ask for.
pub const INITIAL_PAGE_LIMIT: u16 = 1000;

/// The page size used when a query names none.
pub const INITIAL_DEFAULT_PAGE_LIMIT: u16 = 30;

/// Builds a fresh store from the given settings. The automation fee can be
/// at most the whole proceeds.
pub fn instantiate_handler(msg: InstantiateMsg) -> (r: Result<State, ContractError>)
    ensures
        msg.automation_fee_percent.atomics > DECIMAL_FRACTIONAL ==> r == Err::<
            State,
            ContractError,
        >(ContractError::FeePercentTooHigh),
        msg.automation_fee_percent.atomics <= DECIMAL_FRACTIONAL ==> (r matches Ok(s) && ({
            &&& s.wf()
            &&& s.config.admin == msg.admin
            &&& s.config.executors == msg.executors
            &&& s.config.fee_collectors == msg.fee_collectors
            &&& s.config.automation_fee_percent == msg.automation_fee_percent
            &&& s.config.page_limit == INITIAL_PAGE_LIMIT
            &&& s.config.default_page_limit == INITIAL_DEFAULT_PAGE_LIMIT
            &&& s.config.paused == msg.paused
            &&& s.config.exchange_contract_address == msg.exchange_contract_address
            &&& s.bounty_counter == 0
            &&& s.bounties@.len() == 0
            &&& s.events@.len() == 0
            &&& s.disburse_escrow_tasks@.len() == 0
            &&& s.swap_cache is None
            &&& s.bounty_id_cache is None
            &&& s.post_action_queues@.len() == 0
        })),
{
    if msg.automation_fee_percent.atomics > DECIMAL_FRACTIONAL {
        return Err(ContractError::FeePercentTooHigh);
    }
    let config = Config {
        admin: msg.admin,
        executors: msg.executors,
        fee_collectors: msg.fee_collectors,
        automation_fee_percent: msg.automation_fee_percent,
        page_limit: INITIAL_PAGE_LIMIT,
        default_page_limit: INITIAL_DEFAULT_PAGE_LIMIT,
        paused: msg.paused,
        risk_weighted_average_escrow_level: Decimal::percent(5),
        default_slippage_tolerance: Decimal::percent(10),
        exchange_contract_address: msg.exchange_contract_address,
    };
    Ok(State::new(config))
}

/// Replaces the settings wholesale while keeping every vault, event, task
/// and cache in place; the page limits keep their values. The host's
/// governance authorises a migration before it reaches the engine.
pub fn migrate_handler(state: &mut State, msg: MigrateMsg) -> (r: Result<Response, ContractError>)
    requires
        old(state).wf(),
    ensures
        final(state).wf(),
        msg.automation_fee_percent.atomics > DECIMAL_FRACTIONAL ==> (r == Err::<
            Response,
            ContractError,
        >(ContractError::FeePercentTooHigh) && *final(state) == *old(state)),
        msg.automation_fee_percent.atomics <= DECIMAL_FRACTIONAL ==> (r matches Ok(resp)
            && resp.messages@.len() == 0
            && final(state).config.admin == msg.admin
            && final(state).config.executors == msg.executors
            && final(state).config.fee_collectors == msg.fee_collectors
            && final(state).config.automation_fee_percent == msg.automation_fee_percent
            && final(state).config.paused == msg.paused
            && final(state).config.exchange_contract_address == msg.exchange_contract_address
            && final(state).config.page_limit == old(state).config.page_limit
            && final(state).config.default_page_limit == old(state).config.default_page_limit
            && final(state).config.risk_weighted_average_escrow_level == old(
            state,
        ).config.risk_weighted_average_escrow_level
            && final(state).config.default_slippage_tolerance == old(
            state,
        ).config.default_slippage_tolerance
            && final(state).bounty_counter == old(state).bounty_counter
            && final(state).bounties == old(state).bounties
            && final(state).events == old(state).events
            && final(state).disburse_escrow_tasks == old(state).disburse_escrow_tasks
            && final(state).swap_cache == old(state).swap_cache
            && final(state).bounty_id_cache == old(state).bounty_id_cache
            && final(state).post_action_queues == old(state).post_action_queues),
{
    if msg.automation_fee_percent.atomics > DECIMAL_FRACTIONAL {
        return Err(ContractError::FeePercentTooHigh);
    }
    state.config.admin = msg.admin;
    state.config.executors = msg.executors;
    state.config.fee_collectors = msg.fee_collectors;
    state.config.automation_fee_percent = msg.automation_fee_percent;
    state.config.paused = msg.paused;
    state.config.exchange_contract_address = msg.exchange_contract_address;
    Ok(Response::new())
}

/// What the new configuration must be after an update.
pub open spec fn updated_config_matches(
    old_config: Config,
    executors: Option<Vec<String>>,
    fee_collectors: Option<Vec<FeeCollector>>,
    automation_fee_percent: Option<Decimal>,
    default_page_limit: Option<u16>,
    paused: Option<bool>,
    risk_weighted_average_escrow_level: Option<Decimal>,
    default_slippage_tolerance: Option<Decimal>,
    exchange_contract_address: Option<String>,
    new_config: Config,
) -> bool {
    &&& new_config.admin == old_config.admin
    &&& new_config.executors == (match executors {
        Some(e) => e,
        None => old_config.executors,
    })
    &&& new_config.fee_collectors == (match fee_collectors {
        Some(f) => f,
        None => old_config.fee_collectors,
    })
    &&& new_config.automation_fee_percent == (match automation_fee_percent {
        Some(p) => p,
        None => old_config.automation_fee_percent,
    })
    &&& new_config.page_limit == old_config.page_limit
    &&& new_config.default_page_limit == (match default_page_limit {
        Some(l) => l,
        None => old_config.default_page_limit,
    })
    &&& new_config.paused == (match paused {
        Some(p) => p,
        None => old_config.paused,
    })
    &&& new_config.risk_weighted_average_escrow_level == (
    match risk_weighted_average_escrow_level {
        Some(l) => l,
        None => old_config.risk_weighted_average_escrow_level,
    })
    &&& new_config.default_slippage_tolerance == (match default_slippage_tolerance {
        Some(t) => t,
        None => old_config.default_slippage_tolerance,
    })
    &&& new_config.exchange_contract_address == (match exchange_contract_address {
        Some(a) => a,
        None => old_config.exchange_contract_address,
    })
}

/// Replaces the named settings; only the admin may, and the automation fee
/// can be at most the whole proceeds.
pub fn update_config(
    state: &mut State,
    info: &MessageInfo,
    executors: Option<Vec<String>>,
    fee_collectors: Option<Vec<FeeCollector>>,
    automation_fee_percent: Option<Decimal>,
    default_page_limit: Option<u16>,
    paused: Option<bool>,
    risk_weighted_average_escrow_level: Option<Decimal>,
    default_slippage_tolerance: Option<Decimal>,
    exchange_contract_address: Option<String>,
) -> (r: Result<Response, ContractError>)
    requires
        old(state).wf(),
    ensures
        final(state).wf(),
        info.sender@ != old(state).config.admin@ ==> (r == Err::<Response, ContractError>(
            ContractError::Unauthorized,
        ) && *final(state) == *old(state)),
        (info.sender@ == old(state).config.admin@ && (match automation_fee_percent {
            Some(p) => p.atomics > DECIMAL_FRACTIONAL,
            None => false,
        })) ==> (r == Err::<Response, ContractError>(ContractError::FeePercentTooHigh)
            && *final(state) == *old(state)),
        (info.sender@ == old(state).config.admin@ && (match automation_fee_percent {
            Some(p) => p.atomics <= DECIMAL_FRACTIONAL,
            None => true,
        })) ==> (r matches Ok(resp) && resp.messages@.len() == 0 && updated_config_matches(
            old(state).config,
            executors,
            fee_collectors,
            automation_fee_percent,
            default_page_limit,
            paused,
            risk_weighted_average_escrow_level,
            default_slippage_tolerance,
            exchange_contract_address,
            final(state).config,
        ) && final(state).bounty_counter == old(state).bounty_counter
            && final(state).bounties == old(state).bounties
            && final(state).events == old(state).events
            && final(state).disburse_escrow_tasks == old(state).disburse_escrow_tasks
            && final(state).swap_cache == old(state).swap_cache
            && final(state).bounty_id_cache == old(state).bounty_id_cache
            && final(state).post_action_queues == old(state).post_action_queues),
{
    match assert_sender_is_admin(state, &info.sender) {
        Ok(_) => {},
        Err(e) => {
            return Err(e);
        },
    }
    match automation_fee_percent {
        Some(p) => {
            if p.atomics > DECIMAL_FRACTIONAL {
                return Err(ContractError::FeePercentTooHigh);
            }
        },
        None => {},
    }
    match executors {
        Some(e) => {
            state.config.executors = e;
        },
        None => {},
    }
    match fee_collectors {
        Some(f) => {
            state.config.fee_collectors = f;
        },
        None => {},
    }
    match automation_fee_percent {
        Some(p) => {
            state.config.automation_fee_percent = p;
        },
        None => {},
    }
    match default_page_limit {
        Some(l) => {
            state.config.default_page_limit = l;
        },
        None => {},
    }
    match paused {
        Some(p) => {
            state.config.paused = p;
        },
        None => {},
    }
    match risk_weighted_average_escrow_level {
        Some(l) => {
            state.config.risk_weighted_average_escrow_level = l;
        },
        None => {},
    }
    match default_slippage_tolerance {
        Some(t) => {
            state.config.default_slippage_tolerance = t;
        },
        None => {},
    }
    match exchange_contract_address {
        Some(a) => {
            state.config.exchange_contract_address = a;
        },
        None => {},
    }
    Ok(Response::new())
}

} // verus!
