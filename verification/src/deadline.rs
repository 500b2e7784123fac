//! Deadline-scheduling parameter model: translates a runtime budget and a
//! period into the OS scheduling-attribute record.

use vstd::prelude::*;

verus! {

/// Policy selector for the ordinary time-sharing scheduler.
pub const SCHED_NORMAL: u32 = 0;

/// Policy selector for the deadline scheduler.
pub const SCHED_DEADLINE: u32 = 6;

/// Size in bytes of the C attribute record below, fixed by the kernel ABI:
/// two 32-bit words, one 64-bit word, two 32-bit words, three 64-bit words.
pub const SCHED_ATTR_SIZE: u32 = 48;

/// The monitor's per-period execution budget in nanoseconds: deliberately
/// tiny, just enough to sample the counter, compare, and possibly fault.
pub const MONITOR_RUNTIME_NANOS: u64 = 50_000;

/// The scheduling-attribute record, field for field as the scheduling
/// syscall's ABI fixes it. The runtime half of the watchdog copies it into a
/// C-layout twin before handing it to the OS.
#[allow(non_camel_case_types)]
#[derive(Clone, Copy, Debug)]
pub struct sched_attr {
    pub size: u32,
    pub sched_policy: u32,
    pub sched_flags: u64,
    pub sched_nice: i32,
    pub sched_priority: u32,
    pub sched_runtime: u64,
    pub sched_deadline: u64,
    pub sched_period: u64,
}

/// The two durations of one watchdog's deadline reservation, in nanoseconds.
/// Immutable after construction.
#[derive(Clone, Copy, Debug)]
pub struct DeadlineParams {
    pub runtime_ns: u64,
    pub period_ns: u64,
}

impl DeadlineParams {
    /// Parameters for one watchdog: the fixed tiny execution budget, and a
    /// period equal to the caller's check interval.
    pub fn new(check_interval_ns: u64) -> (p: DeadlineParams)
        ensures
            p.runtime_ns == MONITOR_RUNTIME_NANOS,
            p.period_ns == check_interval_ns,
    {
        DeadlineParams { runtime_ns: MONITOR_RUNTIME_NANOS, period_ns: check_interval_ns }
    }

    /// The attribute record that places an execution unit under the deadline
    /// policy with these parameters. Deadline and period are both the full
    /// check interval: the watchdog's CPU share is capped at
    /// `runtime_ns / period_ns` while at least one activation per interval is
    /// guaranteed.
    pub fn gen_attr(&self) -> (a: sched_attr)
        ensures
            a.size == SCHED_ATTR_SIZE,
            a.sched_policy == SCHED_DEADLINE,
            a.sched_flags == 0,
            a.sched_nice == 0,
            a.sched_priority == 0,
            a.sched_runtime == self.runtime_ns,
            a.sched_deadline == self.period_ns,
            a.sched_period == self.period_ns,
    {
        sched_attr {
            size: SCHED_ATTR_SIZE,
            sched_policy: SCHED_DEADLINE,
            sched_flags: 0,
            sched_nice: 0,
            sched_priority: 0,
            sched_runtime: self.runtime_ns,
            sched_deadline: self.period_ns,
            sched_period: self.period_ns,
        }
    }
}

/// The attribute record that resets an execution unit back to the normal
/// time-sharing policy: every field zero but the record size. The capability
/// probe must apply it before its probe unit exits.
pub fn reset_attr() -> (a: sched_attr)
    ensures
        a.size == SCHED_ATTR_SIZE,
        a.sched_policy == SCHED_NORMAL,
        a.sched_flags == 0,
        a.sched_nice == 0,
        a.sched_priority == 0,
        a.sched_runtime == 0,
        a.sched_deadline == 0,
        a.sched_period == 0,
{
    sched_attr {
        size: SCHED_ATTR_SIZE,
        sched_policy: SCHED_NORMAL,
        sched_flags: 0,
        sched_nice: 0,
        sched_priority: 0,
        sched_runtime: 0,
        sched_deadline: 0,
        sched_period: 0,
    }
}

} // verus!
