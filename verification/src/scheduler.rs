//! The two clocks of the machine: when a CPU tick is due and when a 60 Hz
//! frame tick is due.
//!
//! The scheduler only decides.  The host loop reads the clock, asks, runs
//! what is due and tells the scheduler when it has run; neither rate waits
//! for the other.
use vstd::prelude::*;

verus! {

/// Microseconds between two frame ticks: one sixtieth of a second.
pub const FRAME_INTERVAL_MICROS: u64 = 16_666;

/// Microseconds between two CPU ticks at the usual 500 instructions a
/// second.
pub const CPU_INTERVAL_MICROS: u64 = 2_000;

/// The microseconds from `last` to `now`; zero if the clock went back.
pub open spec fn elapsed(now: u64, last: u64) -> int {
    if now >= last {
        now - last
    } else {
        0
    }
}

/// When each of the two rates last ran, and the CPU's interval.  All times
/// are microseconds on one clock that the host chooses.
#[derive(Debug, Clone, Copy, PartialEq, Eq, Structural)]
pub struct Scheduler {
    /// Microseconds that must have passed before the next CPU tick.
    pub cpu_interval: u64,
    /// When the last CPU tick was finished.
    pub last_cpu: u64,
    /// When the last frame tick was finished.
    pub last_frame: u64,
}

impl Scheduler {
    /// A scheduler for which both rates have just run, at `now`.
    #[must_use]
    pub fn new(cpu_interval: u64, now: u64) -> (scheduler: Self)
        ensures
            scheduler == (Scheduler { cpu_interval, last_cpu: now, last_frame: now }),
    {
        Scheduler { cpu_interval, last_cpu: now, last_frame: now }
    }

    /// Whether a CPU tick is due at `now`: more than the CPU interval has
    /// passed since the last one.  The frame rate has no say in it.
    pub fn cpu_due(&self, now: u64) -> (due: bool)
        ensures
            due == (elapsed(now, self.last_cpu) > self.cpu_interval),
    {
        now >= self.last_cpu && now - self.last_cpu > self.cpu_interval
    }

    /// Records that a CPU tick was finished at `now`.
    pub fn cpu_ran(&mut self, now: u64)
        ensures
            *final(self) == (Scheduler { last_cpu: now, ..*old(self) }),
    {
        self.last_cpu = now;
    }

    /// Whether a frame tick is due at `now`: more than a sixtieth of a
    /// second has passed since the last one.  The CPU rate has no say in
    /// it.
    pub fn frame_due(&self, now: u64) -> (due: bool)
        ensures
            due == (elapsed(now, self.last_frame) > FRAME_INTERVAL_MICROS),
    {
        now >= self.last_frame && now - self.last_frame > FRAME_INTERVAL_MICROS
    }

    /// Records that a frame tick was finished at `now`.
    pub fn frame_ran(&mut self, now: u64)
        ensures
            *final(self) == (Scheduler { last_frame: now, ..*old(self) }),
    {
        self.last_frame = now;
    }
}

} // verus!
