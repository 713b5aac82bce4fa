//! Sliding-window event-rate metering.
//!
//! The meter counts ticks inside a window (1 s by default) and reports a
//! frequency. Time is measured in integer milliseconds and rates in integer
//! milli-hertz, with the elapsed time floored at one millisecond in place of
//! a division-by-zero guard. The pure transition functions take the current
//! time as an argument; thin companions read the system clock through a
//! trusted wrapper.

use vstd::prelude::*;
use vstd::arithmetic::div_mod::lemma_div_basics;
use vstd::arithmetic::div_mod::lemma_div_is_ordered_by_denominator;
use crate::anomaly::Anomaly;

verus! {

/// Default measurement window, in milliseconds.
pub const DEFAULT_WINDOW_MS: u64 = 1000;

/// Below this in-window tick count, `read` replays the last full-window
/// reading instead of extrapolating from a partial window.
pub const RATE_HYSTERESIS_TICKS: u64 = 6;

/// One window's event counter together with the rate it implies and the
/// anomaly state of the subject it watches.
#[derive(Clone, Copy, Debug)]
pub struct EventRateMeter {
    /// Ticks seen in the current window.
    pub count: u64,
    /// Start of the current window, in milliseconds.
    pub t0: u64,
    /// The reading latched when the last window closed, in milli-hertz.
    pub last_rate: u64,
    /// Window length, in milliseconds; always positive.
    pub interval: u64,
    /// The anomaly state owned by this meter.
    pub state: Anomaly,
}

impl EventRateMeter {
    /// The window length is positive and the owned state is well formed.
    pub open spec fn wf(self) -> bool {
        &&& self.interval >= 1
        &&& self.state.wf()
    }
}

/// Milliseconds elapsed since the window start (zero if the clock moved
/// backwards).
pub open spec fn spec_elapsed(m: EventRateMeter, now: u64) -> int {
    if now >= m.t0 {
        now - m.t0
    } else {
        0
    }
}

/// A counter increment that stops at the largest representable count.
pub open spec fn spec_sat_inc(c: u64) -> u64 {
    if c == u64::MAX {
        c
    } else {
        (c + 1) as u64
    }
}

/// `count` ticks over `elapsed` milliseconds as milli-hertz, with the
/// elapsed time floored at one millisecond.
pub open spec fn spec_rate_millihz(count: u64, elapsed: int) -> int {
    let d = if elapsed < 1 {
        1
    } else {
        elapsed
    };
    (count as int) * 1_000_000 / d
}

/// Saturation of a nonnegative mathematical value into `u64`.
pub open spec fn spec_clamp_u64(x: int) -> u64 {
    if x > u64::MAX as int {
        u64::MAX
    } else if x < 0 {
        0
    } else {
        x as u64
    }
}

/// The reading at time `now`: zero once more than two full windows have
/// passed with no tick (the stream is dead); the latched `last_rate` while
/// the in-window sample is too small to extrapolate from; otherwise the
/// count over the elapsed time.
pub open spec fn spec_read(m: EventRateMeter, now: u64) -> u64 {
    let e = spec_elapsed(m, now);
    if e > 2 * (m.interval as int) {
        0
    } else if m.count < RATE_HYSTERESIS_TICKS && m.last_rate > 0 {
        m.last_rate
    } else {
        spec_clamp_u64(spec_rate_millihz(m.count, e))
    }
}

/// One tick at time `now`: the counter advances, and once at least one
/// full window has elapsed the current reading is latched, the counter
/// resets, and the window start moves to `now`.
pub open spec fn spec_tick(m: EventRateMeter, now: u64) -> EventRateMeter {
    let m1 = EventRateMeter { count: spec_sat_inc(m.count), ..m };
    if spec_elapsed(m, now) >= m.interval as int {
        EventRateMeter { count: 0, t0: now, last_rate: spec_read(m1, now), ..m1 }
    } else {
        m1
    }
}

impl EventRateMeter {
    /// A fresh meter with the default window, starting its first window at
    /// `now`.
    pub fn new(now: u64) -> (m: EventRateMeter)
        ensures
            m == (EventRateMeter {
                count: 0,
                t0: now,
                last_rate: 0,
                interval: DEFAULT_WINDOW_MS,
                state: Anomaly::Negative,
            }),
            m.wf(),
    {
        EventRateMeter {
            count: 0,
            t0: now,
            last_rate: 0,
            interval: DEFAULT_WINDOW_MS,
            state: Anomaly::Negative,
        }
    }

    /// Compute the event frequency at time `now`, in milli-hertz.
    pub fn read_at(&self, now: u64) -> (r: u64)
        ensures
            r == spec_read(*self, now),
    {
        let elapsed: u64 = if now >= self.t0 {
            now - self.t0
        } else {
            0
        };
        if elapsed > self.interval && elapsed - self.interval > self.interval {
            0
        } else if self.count < RATE_HYSTERESIS_TICKS && self.last_rate > 0 {
            self.last_rate
        } else {
            let denom: u64 = if elapsed < 1 {
                1
            } else {
                elapsed
            };
            let num: u128 = (self.count as u128) * 1_000_000;
            let q: u128 = num / (denom as u128);
            if q > (u64::MAX as u128) {
                u64::MAX
            } else {
                q as u64
            }
        }
    }

    /// Trigger the meter counter at time `now`.
    pub fn tick_at(&mut self, now: u64)
        ensures
            *final(self) == spec_tick(*old(self), now),
            old(self).wf() ==> final(self).wf(),
    {
        if self.count < u64::MAX {
            self.count = self.count + 1;
        }
        let elapsed: u64 = if now >= self.t0 {
            now - self.t0
        } else {
            0
        };
        if elapsed >= self.interval {
            let r = self.read_at(now);
            self.last_rate = r;
            self.count = 0;
            self.t0 = now;
        }
    }

    /// Trigger the meter counter at the current system time.
    pub fn tick(&mut self)
        ensures
            exists|now: u64| *final(self) == spec_tick(*old(self), now),
            old(self).wf() ==> final(self).wf(),
    {
        let now = now_millis();
        self.tick_at(now);
        proof {
            assert(*final(self) == spec_tick(*old(self), now));
        }
    }

    /// Compute the event frequency at the current system time, in
    /// milli-hertz.
    pub fn read(&self) -> (r: u64)
        ensures
            exists|now: u64| r == spec_read(*self, now),
    {
        let now = now_millis();
        let r = self.read_at(now);
        proof {
            assert(r == spec_read(*self, now));
        }
        r
    }
}

impl Default for EventRateMeter {
    /// A fresh meter with the default window, starting at the current
    /// system time.
    fn default() -> (m: EventRateMeter)
        ensures
            m.count == 0,
            m.last_rate == 0,
            m.interval == DEFAULT_WINDOW_MS,
            m.state == Anomaly::Negative,
            m.wf(),
    {
        let now = now_millis();
        EventRateMeter::new(now)
    }
}

/// A reading is never negative (it is an unsigned count of milli-hertz) and
/// never exceeds the tick count over the minimal measurable window of one
/// millisecond, `count * 1_000_000` milli-hertz -- except where the
/// hysteresis rule replays `last_rate`, a value this bound held of when the
/// window that produced it closed.
pub proof fn lemma_read_rate_cap(m: EventRateMeter, now: u64)
    ensures
        spec_read(m, now) <= m.last_rate || spec_read(m, now) as int <= m.count as int
            * 1_000_000,
        !(m.count < RATE_HYSTERESIS_TICKS && m.last_rate > 0) ==> spec_read(m, now) as int
            <= m.count as int * 1_000_000,
{
    let e = spec_elapsed(m, now);
    let d = if e < 1 {
        1
    } else {
        e
    };
    lemma_div_basics(m.count as int * 1_000_000);
    lemma_div_is_ordered_by_denominator(m.count as int * 1_000_000, 1, d);
}

/// Relies on chrono::Local::now and chrono::DateTime::timestamp_millis: a
/// reading of the system clock as milliseconds since the Unix epoch. The
/// value depends on the wall clock, so nothing is promised of it. On a
/// host whose clock reads before the epoch, chrono::Local::now itself
/// panics rather than return a value.
#[verifier::external_body]
fn clock_millis() -> i64 {
    chrono::Local::now().timestamp_millis()
}

/// The current system time in milliseconds, floored at zero. The floor is
/// defence in depth: chrono panics on a pre-epoch clock before a negative
/// value could reach it. The value depends on the wall clock, so no more
/// can be promised of it.
pub fn now_millis() -> u64 {
    let t = clock_millis();
    if t < 0 {
        0
    } else {
        t as u64
    }
}

} // verus!
