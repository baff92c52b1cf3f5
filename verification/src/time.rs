//! Swap intervals and trigger scheduling.
//!
//! Times are UTC seconds. A vault fires on the grid `started_at + k * interval`:
//! after a fire the next target is one interval past the previous target,
//! whatever the clock read when the fire was processed, so the schedule never
//! drifts and missed periods are not skipped.

use vstd::prelude::*;
use vstd::arithmetic::div_mod::{lemma_fundamental_div_mod, lemma_mod_division_less_than_divisor};
use crate::error::ContractError;

verus! {

/// The shortest custom interval accepted at create or update time.
pub const MIN_CUSTOM_INTERVAL_SECONDS: u64 = 60;

/// How often a vault executes.
#[derive(Clone, Copy, PartialEq, Eq, Structural, Debug)]
pub enum TimeInterval {
    EveryMinute,
    HalfHourly,
    Hourly,
    HalfDaily,
    Daily,
    Weekly,
    Fortnightly,
    Monthly,
    Custom { seconds: u64 },
}

/// The length of one interval in seconds. A month counts as thirty days.
pub open spec fn interval_seconds_spec(i: TimeInterval) -> int {
    match i {
        TimeInterval::EveryMinute => 60,
        TimeInterval::HalfHourly => 1800,
        TimeInterval::Hourly => 3600,
        TimeInterval::HalfDaily => 43200,
        TimeInterval::Daily => 86400,
        TimeInterval::Weekly => 604800,
        TimeInterval::Fortnightly => 1209600,
        TimeInterval::Monthly => 2592000,
        TimeInterval::Custom { seconds } => seconds as int,
    }
}

/// An interval the engine accepts: at least one minute long.
pub open spec fn interval_valid_spec(i: TimeInterval) -> bool {
    interval_seconds_spec(i) >= MIN_CUSTOM_INTERVAL_SECONDS
}

impl TimeInterval {
    /// The length of one interval in seconds.
    pub fn seconds(&self) -> (r: u64)
        ensures
            r == interval_seconds_spec(*self),
    {
        match self {
            TimeInterval::EveryMinute => 60,
            TimeInterval::HalfHourly => 1800,
            TimeInterval::Hourly => 3600,
            TimeInterval::HalfDaily => 43200,
            TimeInterval::Daily => 86400,
            TimeInterval::Weekly => 604800,
            TimeInterval::Fortnightly => 1209600,
            TimeInterval::Monthly => 2592000,
            TimeInterval::Custom { seconds } => *seconds,
        }
    }
}

/// Rejects an interval shorter than one minute.
pub fn assert_time_interval_is_valid(interval: &TimeInterval) -> (r: Result<(), ContractError>)
    ensures
        r == (if interval_valid_spec(*interval) {
            Ok::<(), ContractError>(())
        } else {
            Err::<(), ContractError>(ContractError::IntervalTooSmall)
        }),
{
    if interval.seconds() < MIN_CUSTOM_INTERVAL_SECONDS {
        Err(ContractError::IntervalTooSmall)
    } else {
        Ok(())
    }
}

/// The target one interval past `previous`, capped at the largest
/// representable time.
pub open spec fn next_from_previous_spec(previous: int, interval: TimeInterval) -> int {
    if previous + interval_seconds_spec(interval) > u64::MAX {
        u64::MAX as int
    } else {
        previous + interval_seconds_spec(interval)
    }
}

/// The target one interval past the previous target, independent of when the
/// previous fire was actually processed.
pub fn next_target_from_previous(previous_target: u64, interval: &TimeInterval) -> (r: u64)
    ensures
        r == next_from_previous_spec(previous_target as int, *interval),
{
    let i = interval.seconds();
    if previous_target > u64::MAX - i {
        u64::MAX
    } else {
        previous_target + i
    }
}

/// The first time of the form `started_at + k * interval`, `k >= 1`, strictly
/// after `now`, capped at the largest representable time.
pub open spec fn next_fire_spec(now: int, started_at: int, interval: TimeInterval) -> int {
    let i = interval_seconds_spec(interval);
    if now + i > u64::MAX || started_at + i > u64::MAX {
        u64::MAX as int
    } else if started_at > now {
        started_at + i
    } else {
        started_at + ((now - started_at) / i + 1) * i
    }
}

/// The first time of the form `started_at + k * interval`, `k >= 1`, that lies
/// strictly after `now`, capped at the largest representable time. A fresh
/// trigger is scheduled here so that it stays on the vault's original grid.
pub fn get_next_target_time(now: u64, started_at: u64, interval: &TimeInterval) -> (r: u64)
    requires
        interval_seconds_spec(*interval) >= 1,
    ensures
        r == next_fire_spec(now as int, started_at as int, *interval),
        r > now || r == u64::MAX,
{
    let i = interval.seconds();
    if now > u64::MAX - i || started_at > u64::MAX - i {
        return u64::MAX;
    }
    if now < started_at {
        proof {
            let d = i as int;
            let s = started_at as int;
            lemma_fundamental_div_mod(d, d);
            assert((s + d - s) % d == 0);
        }
        started_at + i
    } else {
        let q = (now - started_at) / i;
        proof {
            let x = (now - started_at) as int;
            let d = i as int;
            lemma_fundamental_div_mod(x, d);
            lemma_mod_division_less_than_divisor(x, d);
            assert(d * (x / d) == x - x % d);
            assert((x / d + 1) * d == d * (x / d) + d) by (nonlinear_arith);
            assert((x / d + 1) * d <= x + d);
            assert((x / d + 1) * d > x);
            assert(((x / d + 1) * d) % d == 0) by {
                lemma_fundamental_div_mod_converse_mod_wrap(x / d + 1, d);
            }
        }
        started_at + (q + 1) * i
    }
}

/// After any fire, successful or skipped, the next target is one interval
/// past the previous target — the same time whenever the fire was actually
/// processed, so the schedule neither drifts nor skips.
pub proof fn lemma_reschedule_independent_of_firing_time(
    previous_target: u64,
    interval: TimeInterval,
    firing_time_a: u64,
    firing_time_b: u64,
)
    requires
        previous_target + interval_seconds_spec(interval) <= u64::MAX,
    ensures
        next_from_previous_spec(previous_target as int, interval) == previous_target
            + interval_seconds_spec(interval),
{
}

proof fn lemma_fundamental_div_mod_converse_mod_wrap(q: int, d: int)
    requires
        d >= 1,
        q >= 0,
    ensures
        (q * d) % d == 0,
{
    vstd::arithmetic::div_mod::lemma_fundamental_div_mod_converse_mod(q * d, d, q, 0);
}

} // verus!
