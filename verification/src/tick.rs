//! Tick source: a fixed-period timer subscription.
//!
//! Each elapsed period produces exactly one event carrying the period as a
//! fixed-point `dt` in seconds; skipped ticks are never coalesced. The host
//! clock itself lives outside this crate: construction is handed whether the
//! clock could be started, and fails with `ClockUnavailable` when it could
//! not.

use vstd::prelude::*;
use crate::camera::DT_BOUND;
use crate::error::PipelineError;

verus! {

/// Tick periods are supported up to this many milliseconds (16 seconds).
pub const PERIOD_BOUND_MS: u32 = 16000;

/// A period in milliseconds as a fixed-point duration in seconds.
pub open spec fn dt_of_period_spec(ms: int) -> int {
    (ms * 65536) / 1000
}

/// Convert a tick period in milliseconds to a fixed-point `dt` in seconds.
pub fn dt_of_period(period_ms: u32) -> (r: i64)
    requires
        1 <= period_ms <= PERIOD_BOUND_MS,
    ensures
        r == dt_of_period_spec(period_ms as int),
        0 <= r <= DT_BOUND,
{
    let dt: u64 = ((period_ms as u64) * 65536) / 1000;
    proof {
        vstd::arithmetic::div_mod::lemma_div_pos_is_pos((period_ms as int) * 65536, 1000);
        vstd::arithmetic::div_mod::lemma_div_is_ordered(
            (period_ms as int) * 65536, 1000int * 0x10_0000, 1000);
        vstd::arithmetic::div_mod::lemma_div_multiples_vanish(0x10_0000, 1000);
    }
    dt as i64
}

/// A subscribed fixed-period tick stream: every emitted event carries
/// `dt` seconds (the period, in 16.16 fixed point).
#[derive(Clone, Copy, Debug, PartialEq, Eq, Structural)]
pub struct Ticker {
    pub period_ms: u32,
    pub dt: i64,
}

impl Ticker {
    /// Subscribe to a fixed-period tick stream. `clock_available` reports
    /// whether the host clock could be started; without it construction
    /// fails with `ClockUnavailable`.
    pub fn subscribe(clock_available: bool, period_ms: u32) -> (r: Result<Ticker, PipelineError>)
        requires
            1 <= period_ms <= PERIOD_BOUND_MS,
        ensures
            clock_available ==> r is Ok && r->Ok_0.period_ms == period_ms
                && r->Ok_0.dt == dt_of_period_spec(period_ms as int)
                && 0 <= r->Ok_0.dt <= DT_BOUND,
            !clock_available ==> r == Err::<Ticker, PipelineError>(PipelineError::ClockUnavailable),
    {
        if clock_available {
            Ok(Ticker { period_ms, dt: dt_of_period(period_ms) })
        } else {
            Err(PipelineError::ClockUnavailable)
        }
    }
}

} // verus!
