//! The monitor's polling logic: one cycle per check interval samples the
//! heartbeat counter and faults the process if it has not advanced. The same
//! step is the kernel of both monitoring paths; they differ only in how they
//! are scheduled and in the signal their fault raises.

use vstd::prelude::*;

verus! {

/// The outcome of one polling cycle.
#[derive(Clone, Copy, Debug, Eq, PartialEq, Structural)]
pub enum MonitorVerdict {
    /// The counter advanced: remember the new sample and keep monitoring.
    Proceed { last: usize },
    /// The counter stalled: terminate the process abnormally, now.
    Fault,
}

/// The fatal signal class a detected stall raises, by monitoring path. The
/// two classes are distinct so a post-mortem can tell which monitor fired.
#[derive(Clone, Copy, Debug, Eq, PartialEq, Structural)]
pub enum StallSignal {
    /// Raised by the real-time native monitor: an illegal-instruction-class
    /// machine fault.
    IllegalInstruction,
    /// Raised by the fallback monitor: a process-level abort.
    Abort,
}

/// One polling cycle: `last` is the sample retained from the previous cycle,
/// `counter` the fresh sample. A fault is returned exactly when the counter
/// did not move.
pub fn monitor_step(last: usize, counter: usize) -> (v: MonitorVerdict)
    ensures
        counter == last <==> v is Fault,
        counter != last ==> v == (MonitorVerdict::Proceed { last: counter }),
{
    if counter == last {
        MonitorVerdict::Fault
    } else {
        MonitorVerdict::Proceed { last: counter }
    }
}

/// The signal class a stall raises on the given path.
pub fn stall_signal(realtime: bool) -> (s: StallSignal)
    ensures
        s == stall_signal_spec(realtime),
        realtime <==> s is IllegalInstruction,
        !realtime <==> s is Abort,
{
    if realtime {
        StallSignal::IllegalInstruction
    } else {
        StallSignal::Abort
    }
}

/// Whether a monitor that retained `last` survives the cycles that sample
/// `samples` in order: it survives exactly when every cycle sees progress.
pub open spec fn monitor_survives(last: usize, samples: Seq<usize>) -> bool
    decreases samples.len(),
{
    samples.len() == 0 || (samples[0] != last && monitor_survives(samples[0], samples.drop_first()))
}

/// Whether cycle `i` of a run from `last` over `samples` observes a stall:
/// its sample equals the one the previous cycle retained.
pub open spec fn stalled_at(last: usize, samples: Seq<usize>, i: int) -> bool {
    samples[i] == if i == 0 { last } else { samples[i - 1] }
}

/// The monitor survives a run exactly when no cycle of it observes a stall.
pub proof fn lemma_survives_iff_no_stall(last: usize, samples: Seq<usize>)
    ensures
        monitor_survives(last, samples) <==> (forall|i: int|
            0 <= i < samples.len() ==> !stalled_at(last, samples, i)),
    decreases samples.len(),
{
    if samples.len() > 0 {
        lemma_survives_iff_no_stall(samples[0], samples.drop_first());
        assert forall|i: int| 0 <= i < samples.drop_first().len() implies
            stalled_at(samples[0], samples.drop_first(), i) == stalled_at(last, samples, i + 1) by {
            assert(samples.drop_first()[i] == samples[i + 1]);
            if i > 0 {
                assert(samples.drop_first()[i - 1] == samples[i]);
            }
        }
        if samples[0] != last && monitor_survives(samples[0], samples.drop_first()) {
            assert forall|i: int| 0 <= i < samples.len() implies !stalled_at(last, samples, i) by {
                if i > 0 {
                    assert(!stalled_at(samples[0], samples.drop_first(), i - 1));
                }
            }
        }
        if forall|i: int| 0 <= i < samples.len() ==> !stalled_at(last, samples, i) {
            assert(!stalled_at(last, samples, 0));
            assert forall|i: int| 0 <= i < samples.drop_first().len() implies
                !stalled_at(samples[0], samples.drop_first(), i) by {
                assert(!stalled_at(last, samples, i + 1));
            }
        }
    }
}

/// Liveness law: if the heartbeat counter strictly advances between any two
/// consecutive cycles — the application increments it at least once per
/// interval — the monitor survives an observation window of any length.
pub proof fn lemma_steady_heartbeat_survives(last: usize, samples: Seq<usize>)
    requires
        samples.len() > 0 ==> last < samples[0],
        forall|i: int| 0 <= i < samples.len() - 1 ==> #[trigger] samples[i] < samples[i + 1],
    ensures
        monitor_survives(last, samples),
{
    lemma_survives_iff_no_stall(last, samples);
    assert forall|i: int| 0 <= i < samples.len() implies !stalled_at(last, samples, i) by {
        if i > 0 {
            assert(samples[i - 1] < samples[i]);
        }
    }
}

/// Stall law: if some cycle observes no progress, the monitor does not
/// survive the run — the process is faulted.
pub proof fn lemma_stall_faults(last: usize, samples: Seq<usize>, i: int)
    requires
        0 <= i < samples.len(),
        stalled_at(last, samples, i),
    ensures
        !monitor_survives(last, samples),
{
    lemma_survives_iff_no_stall(last, samples);
}

/// The two monitoring paths fault with distinguishable signals: a fallback
/// stall is never reported with the real-time path's illegal-instruction
/// class, nor the reverse.
pub proof fn lemma_paths_distinguishable(a: bool, b: bool)
    requires
        a != b,
    ensures
        stall_signal_spec(a) != stall_signal_spec(b),
{
}

/// What `stall_signal` returns, as a spec-level map from path to class.
pub open spec fn stall_signal_spec(realtime: bool) -> StallSignal {
    if realtime {
        StallSignal::IllegalInstruction
    } else {
        StallSignal::Abort
    }
}

} // verus!
