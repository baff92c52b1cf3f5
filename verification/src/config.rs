//! Global configuration.

use vstd::prelude::*;
use crate::math::{Decimal, DECIMAL_FRACTIONAL};

verus! {

/// A receiver of collected fees and its share of them.
#[derive(Debug, PartialEq, Eq)]
pub struct FeeCollector {
    pub address: String,
    pub allocation: Decimal,
}

impl Clone for FeeCollector {
    fn clone(&self) -> (r: FeeCollector)
        ensures
            r == *self,
    {
        FeeCollector { address: self.address.clone(), allocation: self.allocation }
    }
}

/// The sum of the collectors' allocations, in atomic units.
pub open spec fn fee_allocation_total(s: Seq<FeeCollector>) -> int
    decreases s.len(),
{
    if s.len() == 0 {
        0
    } else {
        fee_allocation_total(s.drop_last()) + s.last().allocation.atomics
    }
}

/// The engine's settings. The admin alone may change them.
#[derive(Debug, PartialEq, Eq)]
pub struct Config {
    pub admin: String,
    /// Addresses allowed to run due triggers and disburse due escrow.
    pub executors: Vec<String>,
    pub fee_collectors: Vec<FeeCollector>,
    /// The fraction of each settlement's proceeds charged as the automation
    /// fee.
    pub automation_fee_percent: Decimal,
    /// The largest page a query may ask for.
    pub page_limit: u16,
    /// The page size used when a query names none.
    pub default_page_limit: u16,
    pub paused: bool,
    /// The escrow level given to vaults created with a risk-weighted-average
    /// strategy.
    pub risk_weighted_average_escrow_level: Decimal,
    pub default_slippage_tolerance: Decimal,
    /// The venue this engine swaps through.
    pub exchange_contract_address: String,
}

/// Whether `b` holds the same values as `a`: equality, with the collector and
/// executor lists compared element by element.
pub open spec fn config_copies(a: Config, b: Config) -> bool {
    &&& b.admin == a.admin
    &&& b.executors@ == a.executors@
    &&& b.fee_collectors@ == a.fee_collectors@
    &&& b.automation_fee_percent == a.automation_fee_percent
    &&& b.page_limit == a.page_limit
    &&& b.default_page_limit == a.default_page_limit
    &&& b.paused == a.paused
    &&& b.risk_weighted_average_escrow_level == a.risk_weighted_average_escrow_level
    &&& b.default_slippage_tolerance == a.default_slippage_tolerance
    &&& b.exchange_contract_address == a.exchange_contract_address
}

/// Copies an executor list; the copy holds the same values.
pub fn clone_strings(items: &Vec<String>) -> (r: Vec<String>)
    ensures
        r@ == items@,
{
    let mut out: Vec<String> = Vec::new();
    let mut i: usize = 0;
    while i < items.len()
        invariant
            i <= items.len(),
            out@ == items@.subrange(0, i as int),
        decreases items.len() - i,
    {
        out.push(items[i].clone());
        proof {
            assert(out@ =~= items@.subrange(0, i + 1));
        }
        i = i + 1;
    }
    proof {
        assert(out@ =~= items@);
    }
    out
}

/// Copies a collector list; the copy holds the same values.
pub fn clone_fee_collectors(items: &Vec<FeeCollector>) -> (r: Vec<FeeCollector>)
    ensures
        r@ == items@,
{
    let mut out: Vec<FeeCollector> = Vec::new();
    let mut i: usize = 0;
    while i < items.len()
        invariant
            i <= items.len(),
            out@ == items@.subrange(0, i as int),
        decreases items.len() - i,
    {
        out.push(items[i].clone());
        proof {
            assert(out@ =~= items@.subrange(0, i + 1));
        }
        i = i + 1;
    }
    proof {
        assert(out@ =~= items@);
    }
    out
}

impl Clone for Config {
    fn clone(&self) -> (r: Config)
        ensures
            config_copies(*self, r),
    {
        Config {
            admin: self.admin.clone(),
            executors: clone_strings(&self.executors),
            fee_collectors: clone_fee_collectors(&self.fee_collectors),
            automation_fee_percent: self.automation_fee_percent,
            page_limit: self.page_limit,
            default_page_limit: self.default_page_limit,
            paused: self.paused,
            risk_weighted_average_escrow_level: self.risk_weighted_average_escrow_level,
            default_slippage_tolerance: self.default_slippage_tolerance,
            exchange_contract_address: self.exchange_contract_address.clone(),
        }
    }
}

} // verus!
