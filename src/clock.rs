//! A wrapping tick counter, advanced once per timer interrupt, and snapshots
//! of it that support wraparound-safe elapsed-time arithmetic.
use vstd::prelude::*;

verus! {

/// Ticks per second of the counter: one tick is one millisecond.
pub const TICKS_PER_SEC: u32 = 1000;

/// The tick counter value after `n` more ticks, modulo the counter width.
pub open spec fn wrapped_add(ticks: u32, n: nat) -> u32 {
    ((ticks as nat + n) % 0x1_0000_0000) as u32
}

/// Ticks from `earlier` to `later`, counted modulo the counter width.
pub open spec fn wrapped_elapsed(later: u32, earlier: u32) -> nat {
    ((later as int - earlier as int) % 0x1_0000_0000) as nat
}

/// A snapshot of the tick counter.
#[derive(Clone, Copy, Debug, PartialEq, Eq, Structural)]
pub struct TickInstant {
    pub ticks: u32,
}

/// A millisecond tick counter that wraps silently on overflow.
#[derive(Clone, Copy, Debug)]
pub struct MilliSecondClock32 {
    pub ticks: u32,
}

impl MilliSecondClock32 {
    /// A counter at zero, as at boot.
    pub fn new() -> (r: MilliSecondClock32)
        ensures
            r.ticks == 0,
    {
        MilliSecondClock32 { ticks: 0 }
    }

    /// A counter that has already counted `ticks`.
    pub fn starting_at(ticks: u32) -> (r: MilliSecondClock32)
        ensures
            r.ticks == ticks,
    {
        MilliSecondClock32 { ticks }
    }

    /// One timer interrupt: the counter advances by one, wrapping at the top.
    pub fn tick(&mut self)
        ensures
            final(self).ticks == wrapped_add(old(self).ticks, 1),
    {
        self.ticks = self.ticks.wrapping_add(1);
    }

    /// A snapshot of the counter as it stands.
    pub fn now(&self) -> (r: TickInstant)
        ensures
            r.ticks == self.ticks,
    {
        TickInstant { ticks: self.ticks }
    }

    /// Milliseconds from `since` to now. The result is exact whenever fewer
    /// than 2^32 ticks (about 49.7 days) really elapsed in between.
    pub fn elapsed(&self, since: TickInstant) -> (r: u64)
        ensures
            r == wrapped_elapsed(self.ticks, since.ticks),
            r < 0x1_0000_0000,
    {
        let d: u32 = self.ticks.wrapping_sub(since.ticks);
        d as u64
    }
}

/// Called from the timer interrupt: advances the counter by exactly one tick.
pub fn tick_handler(clock: &mut MilliSecondClock32)
    ensures
        final(clock).ticks == wrapped_add(old(clock).ticks, 1),
{
    clock.tick();
}

/// The elapsed time is exact across a wrap of the counter: `n` ticks after
/// any snapshot, `elapsed` reports `n` milliseconds, for every `n` below the
/// counter period.
pub proof fn lemma_elapsed_across_wrap(start: u32, n: nat)
    requires
        n < 0x1_0000_0000,
    ensures
        wrapped_elapsed(wrapped_add(start, n), start) == n,
{
    let m: int = 0x1_0000_0000;
    let s = start as int;
    let later = (s + n) % m;
    assert(later == (s + n) % m);
    assert(wrapped_add(start, n) as int == later);
    assert(((later - s) % m) == n) by (nonlinear_arith)
        requires
            later == (s + n) % m,
            m == 0x1_0000_0000,
            0 <= s < m,
            0 <= n < m,
    ;
}

} // verus!
