//! Parameters of the per-CPU software clock perf events.
//!
//! One event is opened per online CPU: a software CPU-clock counter with
//! the sample period derived from the requested frequency, initially
//! disabled, close-on-exec, scoped to one pid or system-wide on its CPU.
//! The open itself is a syscall made by the surrounding binary; this module
//! fixes the numbers it must pass.

use vstd::prelude::*;

verus! {

/// One nanosecond-denominated second: the numerator of the sample period.
pub const NANOS_PER_SECOND: u64 = 1000000000;

/// Everything the perf-event open call needs for one CPU.
#[derive(Clone, Copy, Debug, PartialEq, Eq, Structural)]
pub struct PerfEventSpec {
    /// The CPU the event counts on.
    pub cpu: i32,
    /// Nanoseconds between samples: `10^9 / frequency`, rounded down.
    pub sample_period: u64,
    /// The frequency hint, in samples per second.
    pub sample_freq: u64,
    /// The pid the event is scoped to, or `-1` for system-wide on the CPU.
    pub pid: i32,
}

/// Computes the event parameters for one CPU at the given frequency,
/// scoped to `pid` when one is given.
pub fn setup(cpu: i32, frequency: u64, pid: Option<i32>) -> (r: PerfEventSpec)
    requires
        frequency >= 1,
    ensures
        r.cpu == cpu,
        r.sample_period == NANOS_PER_SECOND as int / frequency as int,
        r.sample_freq == frequency,
        r.pid == (match pid {
            Option::Some(p) => p,
            Option::None => -1i32,
        }),
{
    let sample_period = NANOS_PER_SECOND / frequency;
    let pid = match pid {
        Some(p) => p,
        None => -1,
    };
    PerfEventSpec { cpu, sample_period, sample_freq: frequency, pid }
}

} // verus!
