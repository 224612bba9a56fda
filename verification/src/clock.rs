//! Monotonic millisecond clock fed by a periodic timer interrupt.
//!
//! The hardware timer fires a compare-match interrupt at a fixed rate; each
//! firing advances the counter by a fixed step derived from the timer's
//! prescaler and compare value. The counter wraps silently at `u32::MAX`
//! (an accepted risk given the expected device uptime). The integer
//! division in the step computation truncates; the resulting drift is an
//! accepted property of the design, not corrected here.

use vstd::prelude::*;

verus! {

/// Timer prescaler configured on the hardware timer.
pub const PRESCALER: u32 = 1024;

/// Compare value configured on the hardware timer.
pub const TIMER_COUNTS: u32 = 125;

/// Milliseconds that each interrupt firing adds to the counter
/// (prescaler times compare value, divided by the 16 MHz core clock
/// expressed in kHz; the division truncates).
pub const MILLIS_INCREMENT: u32 = PRESCALER * TIMER_COUNTS / 16000;

/// Counter value after one interrupt firing: advance by the fixed step,
/// wrapping silently at the top of the `u32` range.
pub open spec fn ticked(t: u32) -> u32 {
    if t + MILLIS_INCREMENT <= u32::MAX {
        (t + MILLIS_INCREMENT) as u32
    } else {
        (t + MILLIS_INCREMENT - 0x1_0000_0000) as u32
    }
}

/// Counter value after `n` interrupt firings.
pub open spec fn ticked_times(t: u32, n: nat) -> u32
    decreases n,
{
    if n == 0 {
        t
    } else {
        ticked(ticked_times(t, (n - 1) as nat))
    }
}

/// Interrupt-fed millisecond counter. Only three operations exist: reset
/// at initialization, advance by the fixed step (interrupt context only),
/// and read. The raw storage is never exposed.
#[derive(Clone, Copy, Debug, PartialEq, Eq, Structural)]
pub struct MonotonicClock {
    counter: u32,
}

impl MonotonicClock {
    /// The current counter value, as contracts see it. The raw storage
    /// itself stays encapsulated.
    pub closed spec fn millis(self) -> u32 {
        self.counter
    }

    /// A freshly initialized clock reads zero.
    pub fn init() -> (c: Self)
        ensures
            c.millis() == 0,
    {
        MonotonicClock { counter: 0 }
    }

    /// One interrupt firing: advance the counter by the fixed step,
    /// wrapping silently on overflow.
    pub fn tick(&mut self)
        ensures
            final(self).millis() == ticked(old(self).millis()),
    {
        self.counter = self.counter.wrapping_add(MILLIS_INCREMENT);
    }

    /// Read the counter. The caller reads through a critical section when
    /// an interrupt may race the read; the value itself is exactly the
    /// counter.
    pub fn now(&self) -> (t: u32)
        ensures
            t == self.millis(),
    {
        self.counter
    }
}

/// Clock monotonicity: over any sequence of interrupt firings that stays
/// below the wraparound point, successive readings never decrease — after
/// `n` firings the counter reads exactly `n` steps later, never earlier.
pub proof fn lemma_clock_monotonic(t: u32, n: nat)
    requires
        t + n * MILLIS_INCREMENT <= u32::MAX,
    ensures
        ticked_times(t, n) == t + n * MILLIS_INCREMENT,
        ticked_times(t, n) >= t,
    decreases n,
{
    if n > 0 {
        lemma_clock_monotonic(t, (n - 1) as nat);
    }
}

} // verus!
