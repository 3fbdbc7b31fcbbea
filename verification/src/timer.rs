//! The deadline timer: an optional armed instant over a monotonic tick clock.
//!
//! Instants are monotonic timestamps counted in ticks of one microsecond;
//! delays are given in milliseconds. Arming computes `now + delay` with a
//! saturating addition, so the timer fails toward the far end of the clock's
//! range rather than silently wrapping.

use vstd::prelude::*;

verus! {

/// Ticks in one millisecond: instants count microseconds.
pub const TICKS_PER_MS: u64 = 1000;

/// `ms` milliseconds as a tick count, saturating at the top of the clock's
/// range.
pub open spec fn ticks_of_ms(ms: u64) -> u64 {
    if ms * TICKS_PER_MS > u64::MAX {
        u64::MAX
    } else {
        (ms * TICKS_PER_MS) as u64
    }
}

/// The instant armed by a timer started at `now` for `ms` milliseconds:
/// `now + ms` in ticks, saturating at the top of the clock's range.
pub open spec fn sat_deadline(now: u64, ms: u64) -> u64 {
    if now + ticks_of_ms(ms) > u64::MAX {
        u64::MAX
    } else {
        (now + ticks_of_ms(ms)) as u64
    }
}

/// An armed instant never lies before the instant it was computed from.
pub proof fn lemma_sat_deadline_ge_now(now: u64, ms: u64)
    ensures
        sat_deadline(now, ms) >= now,
{
}

/// Arming later never yields an earlier instant.
pub proof fn lemma_sat_deadline_monotone(a: u64, b: u64, ms: u64)
    requires
        a <= b,
    ensures
        sat_deadline(a, ms) <= sat_deadline(b, ms),
{
}

/// Computes [`sat_deadline`] in executable code.
pub fn deadline_after(now: u64, delay_ms: u64) -> (r: u64)
    ensures
        r == sat_deadline(now, delay_ms),
{
    let ticks: u64 = if delay_ms > u64::MAX / TICKS_PER_MS {
        u64::MAX
    } else {
        delay_ms * TICKS_PER_MS
    };
    if now > u64::MAX - ticks {
        u64::MAX
    } else {
        now + ticks
    }
}

/// The deadline timer. It holds at most one armed instant; `None` means a
/// wait on it returns immediately.
pub struct Timer {
    /// The armed instant, in ticks.
    pub delay: Option<u64>,
}

impl Timer {
    /// A fresh timer with nothing armed.
    pub fn new() -> (t: Timer)
        ensures
            t.delay is None,
    {
        Timer { delay: None }
    }

    /// Arms the timer at `now + delay_ms`, overwriting any previously armed
    /// instant, saturating rather than wrapping past the clock's range.
    pub fn start_delay(&mut self, now: u64, delay_ms: u64)
        ensures
            final(self).delay == Some(sat_deadline(now, delay_ms)),
    {
        let t = deadline_after(now, delay_ms);
        self.delay = Some(t);
    }

    /// The instant a wait on this timer must suspend until, or `None` when it
    /// is to return immediately. The armed instant is read, not cleared.
    pub fn pending_deadline(&self) -> (r: Option<u64>)
        ensures
            r == self.delay,
    {
        self.delay
    }
}

} // verus!
