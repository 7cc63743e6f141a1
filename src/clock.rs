use vstd::prelude::*;

verus! {

/// Time between two ticks at the start of a game, in microseconds.
pub const INITIAL_INTERVAL: u64 = 220_000;

/// The shortest time between two ticks, in microseconds.
pub const MIN_INTERVAL: u64 = 100_000;

/// How much each food eaten shortens the time between two ticks, in microseconds.
pub const INTERVAL_STEP: u64 = 5_000;

/// `v` brought into `[lo, hi]`.
pub open spec fn clamped(v: u64, lo: u64, hi: u64) -> u64 {
    if v < lo {
        lo
    } else if v > hi {
        hi
    } else {
        v
    }
}

/// The interval after one speed-up: shorter by one step, but not below the floor.
pub open spec fn sped_up(interval: u64) -> u64 {
    if interval >= MIN_INTERVAL + INTERVAL_STEP {
        (interval - INTERVAL_STEP) as u64
    } else {
        MIN_INTERVAL
    }
}

/// Turns elapsed real time into discrete ticks. All times are in microseconds.
pub struct GameClock {
    /// Time accumulated since the clock started.
    pub elapsed: u64,
    /// The time past which the next tick fires.
    pub next_tick: u64,
    /// The current time between two ticks.
    pub interval: u64,
}

impl GameClock {
    pub open spec fn wf(&self) -> bool {
        &&& MIN_INTERVAL <= self.interval <= INITIAL_INTERVAL
        &&& self.next_tick <= self.elapsed + INITIAL_INTERVAL
    }

    /// A clock at time zero: the first advance by a positive time fires.
    pub fn new() -> (r: GameClock)
        ensures
            r.wf(),
            r.elapsed == 0,
            r.next_tick == 0,
            r.interval == INITIAL_INTERVAL,
    {
        GameClock { elapsed: 0, next_tick: 0, interval: INITIAL_INTERVAL }
    }

    /// Adds `dt` to the elapsed time; returns whether that crossed the next
    /// tick. On firing, the next tick is set one interval later and the
    /// interval is brought into its allowed range.
    pub fn advance(&mut self, dt: u64) -> (fired: bool)
        requires
            old(self).wf(),
            old(self).elapsed + dt <= u64::MAX - INITIAL_INTERVAL,
        ensures
            final(self).wf(),
            final(self).elapsed == old(self).elapsed + dt,
            fired == (final(self).elapsed > old(self).next_tick),
            fired ==> final(self).next_tick == old(self).next_tick + old(self).interval,
            fired ==> final(self).interval == clamped(
                old(self).interval,
                MIN_INTERVAL,
                INITIAL_INTERVAL,
            ),
            !fired ==> final(self).next_tick == old(self).next_tick,
            !fired ==> final(self).interval == old(self).interval,
    {
        self.elapsed = self.elapsed + dt;
        if self.elapsed > self.next_tick {
            self.next_tick = self.next_tick + self.interval;
            self.interval = clamp(self.interval, MIN_INTERVAL, INITIAL_INTERVAL);
            true
        } else {
            false
        }
    }

    /// Shortens the interval by one step, floored at the minimum.
    pub fn speed_up(&mut self)
        requires
            old(self).wf(),
        ensures
            final(self).wf(),
            final(self).interval == sped_up(old(self).interval),
            final(self).elapsed == old(self).elapsed,
            final(self).next_tick == old(self).next_tick,
    {
        if self.interval >= MIN_INTERVAL + INTERVAL_STEP {
            self.interval = self.interval - INTERVAL_STEP;
        } else {
            self.interval = MIN_INTERVAL;
        }
    }
}

/// `v` brought into `[lo, hi]`.
fn clamp(v: u64, lo: u64, hi: u64) -> (r: u64)
    ensures
        r == clamped(v, lo, hi),
{
    if v < lo {
        lo
    } else if v > hi {
        hi
    } else {
        v
    }
}

} // verus!
