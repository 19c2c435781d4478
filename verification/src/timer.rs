//! Periodic-timer bookkeeping: the tick counter advanced by the timer
//! interrupt handler, and the small calculations behind the sleep and
//! time-reporting helpers.
//!
//! The timer hardware itself (reload value, control bits, the pending line)
//! lives in the interrupt-controller model; waiting for ticks to pass is a
//! busy-wait on shared state and is left to the shell, which polls with
//! [`sleep_elapsed`] deciding when the wait is over.

use vstd::prelude::*;

verus! {

/// Length of one timer tick in milliseconds (the timer is programmed for
/// 10 ms intervals).
pub const TICK_MS: u64 = 10;

/// The periodic timer's programmed interval, in microseconds.
pub const TIMER_INTERVAL_US: u32 = 10_000;

/// Bring the timer system up: register the tick handler with the interrupt
/// controller, then program the periodic timer for 10 ms intervals and
/// enable its line.
pub fn init(gic: &mut crate::gic::Gic)
    ensures
        *final(gic) == (crate::gic::Gic {
            timer_handler_registered: true,
            ..*old(gic)
        }).spec_setup_timer(TIMER_INTERVAL_US),
{
    crate::gic::register_timer_handler(gic);
    gic.setup_timer(TIMER_INTERVAL_US);
}

/// The per-system tick counter, advanced once per timer interrupt.
pub struct TimerState {
    /// Ticks seen since initialization; wraps around at the type bound.
    pub tick_count: u64,
}

impl TimerState {
    /// A fresh counter starts at zero.
    pub fn new() -> (t: TimerState)
        ensures
            t.tick_count == 0,
    {
        TimerState { tick_count: 0 }
    }
}

/// Read the current tick count.
pub fn get_tick_count(t: &TimerState) -> (r: u64)
    ensures
        r == t.tick_count,
{
    t.tick_count
}

/// One tick: the successor of `c`, wrapping at the type bound.
pub open spec fn spec_tick(c: u64) -> u64 {
    if c == u64::MAX {
        0
    } else {
        (c + 1) as u64
    }
}

/// The timer interrupt handler's effect: advance the tick counter by one
/// (wrapping), and report whether this tick is one of the periodic
/// once-per-hundred ticks worth a diagnostic line.
pub fn timer_interrupt_handler(t: &mut TimerState) -> (report: bool)
    ensures
        final(t).tick_count == spec_tick(old(t).tick_count),
        report == (final(t).tick_count % 100 == 0),
{
    t.tick_count = t.tick_count.wrapping_add(1);
    t.tick_count % 100 == 0
}

/// Whether a sleep that began at `start_tick` and asked for `ticks` ticks is
/// over, given the current count `now`.
pub fn sleep_elapsed(start_tick: u64, now: u64, ticks: u64) -> (done: bool)
    requires
        start_tick <= now,
    ensures
        done == (now - start_tick >= ticks),
{
    now - start_tick >= ticks
}

/// Number of whole ticks that cover `ms` milliseconds; a sleep for less
/// than one tick is skipped entirely.
pub fn ms_to_ticks(ms: u64) -> (ticks: u64)
    ensures
        ticks == ms / TICK_MS,
{
    ms / TICK_MS
}

/// Milliseconds represented by a raw system-counter value, for a counter
/// running at one megahertz.
pub fn counter_to_ms(counter: u64) -> (ms: u64)
    ensures
        ms == counter / 1000,
{
    counter / 1000
}

} // verus!
