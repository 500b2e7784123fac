//! A liveness watchdog: an unresponsive process is detected and forcibly
//! terminated within a bounded time window. The monitored application signals
//! progress by incrementing a shared heartbeat counter; an independently
//! scheduled monitor samples the counter once per configured interval and
//! faults the process if progress stalls.
//!
//! This crate holds the watchdog's decision logic, verified: the launch
//! protocol as a state machine over syscall outcomes, the capability-probe
//! verdict, the monitor's polling step, the deadline-scheduling parameter
//! model, and the shared-context model with its handshake and heartbeat laws.
//! The OS-facing runtime that performs the syscalls and runs the monitor
//! drives these functions from outside the crate.

use vstd::prelude::*;

pub mod capability;
pub mod deadline;
pub mod launch;
pub mod monitor;

verus! {

/// The caller's policy for how the watchdog may be started. Immutable for the
/// watchdog's lifetime.
#[derive(Clone, Copy, Debug, Eq, PartialEq, Structural)]
pub enum Strategy {
    /// Fail the process at startup if real-time monitoring is unavailable;
    /// no silent downgrade.
    RealtimeOnly,
    /// Always use the polling fallback monitor.
    FallbackOnly,
    /// Best effort: attempt the real-time path, degrade silently to the
    /// fallback with a diagnostic if it is unavailable.
    RealtimeOrFallback,
}

/// Fence value: no start requested yet.
pub const FENCE_UNINIT: u32 = 0;

/// Fence value: the launcher requested the monitor to start.
pub const FENCE_START_REQUESTED: u32 = 1;

/// Fence value: the monitor acknowledged and is running its loop.
pub const FENCE_START_ACKNOWLEDGED: u32 = 2;

/// The state shared between launcher, monitor, and application. The real
/// block lives on its own page-sized mapping for the remaining process
/// lifetime and also reserves the monitor's private stack; this type models
/// the two words of it that the protocol reads and writes. The counter is
/// multi-writer (any application thread), single-reader (the one active
/// monitor); the fence is written exactly twice, once by each party, during
/// startup only.
pub struct Context {
    /// The heartbeat counter: monotonically non-decreasing, incremented by
    /// the application to signal progress.
    pub counter: usize,
    /// The handshake fence; in a well-formed startup it is written exactly
    /// twice, through the two methods below.
    pub fence: u32,
}

impl Context {
    /// Well-formedness: the fence stays in its three-value domain.
    pub open spec fn wf(&self) -> bool {
        self.fence <= FENCE_START_ACKNOWLEDGED
    }

    /// A fresh context: counter at zero, fence uninitialized. The real block
    /// comes from a zero-filled anonymous page.
    pub fn new() -> (c: Context)
        ensures
            c.wf(),
            c.counter == 0,
            c.fence == FENCE_UNINIT,
    {
        Context { counter: 0, fence: FENCE_UNINIT }
    }

    /// One heartbeat: the application signals progress. The counter only ever
    /// grows; the fence is untouched.
    pub fn record_heartbeat(&mut self)
        requires
            old(self).counter < usize::MAX,
        ensures
            final(self).counter == old(self).counter + 1,
            final(self).fence == old(self).fence,
            old(self).wf() ==> final(self).wf(),
    {
        self.counter = self.counter + 1;
    }

    /// The launcher's single fence write: uninitialized to start-requested.
    pub fn request_start(&mut self)
        requires
            old(self).fence == FENCE_UNINIT,
        ensures
            final(self).fence == FENCE_START_REQUESTED,
            final(self).counter == old(self).counter,
            final(self).wf(),
    {
        self.fence = FENCE_START_REQUESTED;
    }

    /// The monitor's single fence write: start-requested to
    /// start-acknowledged.
    pub fn acknowledge_start(&mut self)
        requires
            old(self).fence == FENCE_START_REQUESTED,
        ensures
            final(self).fence == FENCE_START_ACKNOWLEDGED,
            final(self).counter == old(self).counter,
            final(self).wf(),
    {
        self.fence = FENCE_START_ACKNOWLEDGED;
    }
}

/// A legitimate single fence write: the launcher's request or the monitor's
/// acknowledgement. These are the only two writes the protocol performs.
pub open spec fn fence_write_ok(from: u32, to: u32) -> bool {
    ||| (from == FENCE_UNINIT && to == FENCE_START_REQUESTED)
    ||| (from == FENCE_START_REQUESTED && to == FENCE_START_ACKNOWLEDGED)
}

/// Between two observations the fence either did not move or took one
/// legitimate write.
pub open spec fn fence_step_ok(from: u32, to: u32) -> bool {
    to == from || fence_write_ok(from, to)
}

/// A sequence of fence values as any thread may observe them during startup:
/// it begins uninitialized and moves only by legitimate writes.
pub open spec fn fence_trajectory_ok(t: Seq<u32>) -> bool {
    &&& t.len() > 0 ==> t[0] == FENCE_UNINIT
    &&& forall|i: int| 0 <= i < t.len() - 1 ==> fence_step_ok(#[trigger] t[i], t[i + 1])
}

/// Handshake law: however the launcher, the monitor, and any number of
/// application threads interleave, every observed fence trajectory stays in
/// the three-value domain, never reverses, and never skips a value — in
/// particular, start-acknowledged is only ever observed after start-requested
/// was observable.
pub proof fn lemma_fence_monotone(t: Seq<u32>)
    requires
        fence_trajectory_ok(t),
    ensures
        forall|i: int| 0 <= i < t.len() ==> t[i] <= FENCE_START_ACKNOWLEDGED,
        forall|i: int, j: int| 0 <= i <= j < t.len() ==> t[i] <= t[j],
        forall|i: int| 0 <= i < t.len() - 1 ==> #[trigger] t[i + 1] <= t[i] + 1,
{
    assert forall|i: int| 0 <= i < t.len() implies t[i] <= FENCE_START_ACKNOWLEDGED by {
        lemma_fence_bounded(t, i);
    }
    assert forall|i: int, j: int| 0 <= i <= j < t.len() implies t[i] <= t[j] by {
        lemma_fence_le(t, i, j);
    }
}

proof fn lemma_fence_bounded(t: Seq<u32>, i: int)
    requires
        fence_trajectory_ok(t),
        0 <= i < t.len(),
    ensures
        t[i] <= FENCE_START_ACKNOWLEDGED,
    decreases i,
{
    if i > 0 {
        lemma_fence_bounded(t, i - 1);
    }
}

proof fn lemma_fence_le(t: Seq<u32>, i: int, j: int)
    requires
        fence_trajectory_ok(t),
        0 <= i <= j < t.len(),
    ensures
        t[i] <= t[j],
    decreases j - i,
{
    if i < j {
        lemma_fence_le(t, i, j - 1);
    }
}

/// Handshake law, the no-skip half: start-acknowledged is reached only
/// through start-requested. Any observation of the acknowledged value is
/// preceded by one of the requested value.
pub proof fn lemma_fence_never_skips(t: Seq<u32>, j: int)
    requires
        fence_trajectory_ok(t),
        0 <= j < t.len(),
        t[j] == FENCE_START_ACKNOWLEDGED,
    ensures
        exists|k: int| 0 <= k < j && t[k] == FENCE_START_REQUESTED,
    decreases j,
{
    if j == 0 {
        assert(t[0] == FENCE_UNINIT);
    } else if t[j - 1] == FENCE_START_ACKNOWLEDGED {
        lemma_fence_never_skips(t, j - 1);
        let k = choose|k: int| 0 <= k < j - 1 && t[k] == FENCE_START_REQUESTED;
        assert(0 <= k < j && t[k] == FENCE_START_REQUESTED);
    } else {
        assert(fence_write_ok(t[j - 1], t[j]));
        assert(t[j - 1] == FENCE_START_REQUESTED);
    }
}

/// A counter trajectory: the values the shared heartbeat counter takes, in
/// order, as increment events land on it. Each atomic increment adds exactly
/// one, whichever thread issued it, so an interleaving of any number of
/// threads produces exactly such a sequence.
pub open spec fn counter_trajectory_ok(base: usize, t: Seq<usize>) -> bool {
    &&& t.len() > 0 ==> t[0] == base
    &&& forall|i: int| 0 <= i < t.len() - 1 ==> counter_step_ok(#[trigger] t[i], t[i + 1])
}

/// One increment landed: the next observed value is the previous plus one.
pub open spec fn counter_step_ok(from: usize, to: usize) -> bool {
    to == from + 1
}

/// Heartbeat law: after any number of increments the counter reads its
/// baseline plus the number of increments, and it never decreased on the
/// way.
pub proof fn lemma_counter_counts_increments(base: usize, t: Seq<usize>)
    requires
        counter_trajectory_ok(base, t),
    ensures
        forall|i: int| 0 <= i < t.len() ==> t[i] == base + i,
        forall|i: int, j: int| 0 <= i <= j < t.len() ==> t[i] <= t[j],
{
    assert forall|i: int| 0 <= i < t.len() implies t[i] == base + i by {
        lemma_counter_at(base, t, i);
    }
}

proof fn lemma_counter_at(base: usize, t: Seq<usize>, i: int)
    requires
        counter_trajectory_ok(base, t),
        0 <= i < t.len(),
    ensures
        t[i] == base + i,
    decreases i,
{
    if i > 0 {
        lemma_counter_at(base, t, i - 1);
    }
}

/// Heartbeat law for concurrent writers: with `threads` application threads
/// each landing `per_thread` increments — in any interleaving — the counter
/// ends at exactly its baseline plus `threads * per_thread`.
pub proof fn lemma_concurrent_increments_total(
    base: usize,
    threads: nat,
    per_thread: nat,
    t: Seq<usize>,
)
    requires
        counter_trajectory_ok(base, t),
        t.len() == threads * per_thread + 1,
    ensures
        t.last() == base + threads * per_thread,
{
    lemma_counter_counts_increments(base, t);
}

} // verus!
