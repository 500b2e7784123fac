//! The launch protocol as a state machine. The runtime performs one
//! privileged OS operation per step — mapping the context page, probing the
//! scheduler, locking pages, spawning the raw monitor unit, applying the
//! deadline attributes, handshaking over the fence — and reports each outcome
//! as an event; `launch_step` decides the next state and the next action.
//! Every decision of the launch sequence lives here, verified; the runtime
//! only executes what the returned action names.

use vstd::prelude::*;

use crate::{Strategy, FENCE_START_ACKNOWLEDGED};

verus! {

/// Why a launch terminates the process at startup. Each reason protects a
/// safety property that has no degraded form.
#[derive(Clone, Copy, Debug, Eq, PartialEq, Structural)]
pub enum FatalReason {
    /// The host's page cannot hold a shared context: a structural assumption
    /// of the design is violated.
    PageTooSmall,
    /// The context page could not be mapped.
    MapFailed,
    /// The native monitor's entry point is not page-aligned, so its code page
    /// cannot be whole-page locked: a build or platform defect.
    EntryMisaligned,
    /// The raw monitor execution unit could not be created.
    SpawnFailed,
    /// The deadline attributes were rejected after the capability had already
    /// been confirmed; an unscheduled monitor could itself be starved.
    SchedulingRejected,
    /// The policy demands real-time monitoring and the host cannot provide
    /// it; no silent downgrade is permitted.
    RealtimeUnavailable,
}

/// Where the launch stands. `SizingPage` is the initial state; the three
/// last variants are terminal.
#[derive(Clone, Copy, Debug, Eq, PartialEq, Structural)]
pub enum LaunchState {
    /// Checking that one page can hold a shared context.
    SizingPage,
    /// Mapping the independent page for the context.
    MappingContext,
    /// Probing whether deadline scheduling is usable.
    ProbingCapability,
    /// Checking the native monitor entry point's alignment.
    CheckingEntry,
    /// Locking the context page and the entry point's code page.
    LockingPages,
    /// Creating the raw monitor execution unit.
    SpawningMonitor,
    /// Applying the deadline attributes to the new unit.
    ApplyingScheduler,
    /// Startup handshake: waiting for the monitor to acknowledge over the
    /// fence.
    AwaitingAck,
    /// Starting the fallback polling monitor.
    StartingFallback,
    /// Terminal: the real-time monitor is confirmed running.
    RealtimeActive,
    /// Terminal: the fallback monitor is confirmed running.
    FallbackActive,
    /// Terminal: the process terminates at startup.
    Aborted { reason: FatalReason },
}

/// The outcome of the one OS operation the previous action named.
#[derive(Clone, Copy, Debug, Eq, PartialEq, Structural)]
pub enum LaunchEvent {
    /// The host's page size, and the size a shared context needs.
    PageSized { page_size: i64, context_size: usize },
    /// Whether the anonymous page mapping succeeded.
    MapAttempted { succeeded: bool },
    /// Whether deadline scheduling is usable on this host.
    CapabilityProbed { usable: bool },
    /// The native monitor entry point's address, and the page size it must be
    /// aligned to.
    EntryResolved { entry: usize, page: usize },
    /// Whether both the context page and the entry's code page were locked
    /// into physical memory.
    LockAttempted { both_locked: bool },
    /// The identifier the low-level creation primitive returned for the new
    /// execution unit; negative on failure.
    SpawnAttempted { pid: i32 },
    /// Whether the deadline attributes were applied to the new unit.
    SchedulerApplied { accepted: bool },
    /// The fence value read after requesting the start or after one wait on
    /// the fence's address.
    FenceObserved { fence: u32 },
    /// The fallback monitor's execution unit is running.
    FallbackSpawned,
}

/// What the runtime must do next.
#[derive(Clone, Copy, Debug, Eq, PartialEq, Structural)]
pub enum LaunchAction {
    /// Map one independent, page-aligned, page-sized anonymous page.
    MapContextPage,
    /// Run the capability probe in an isolated execution unit.
    ProbeCapability,
    /// Resolve the native monitor entry point's address.
    ResolveEntry,
    /// Lock the context page and the entry point's code page into physical
    /// memory.
    LockPages,
    /// Create the raw monitor execution unit on the context's private stack,
    /// entering at the native monitor.
    SpawnMonitor,
    /// Apply the deadline attributes to the new unit.
    ApplyScheduler,
    /// Set the fence to start-requested, wake any waiter on its address, then
    /// read the fence back.
    RequestStartAndObserve,
    /// Wait on the fence's address until woken, then read the fence again.
    WaitAndObserve,
    /// Emit the degradation diagnostic to the error stream and spawn the
    /// fallback polling monitor.
    StartFallback,
    /// Return the context handle; the real-time monitor is live.
    ReturnRealtimeHandle,
    /// Return the context handle; the fallback monitor is live.
    ReturnFallbackHandle,
    /// Terminate the process at startup.
    Terminate { reason: FatalReason },
}

/// Which event each state awaits: the outcome of the operation its incoming
/// action named. Terminal states await nothing.
pub open spec fn awaits(state: LaunchState, event: LaunchEvent) -> bool {
    match state {
        LaunchState::SizingPage => event is PageSized,
        LaunchState::MappingContext => event is MapAttempted,
        LaunchState::ProbingCapability => event is CapabilityProbed,
        LaunchState::CheckingEntry => event is EntryResolved,
        LaunchState::LockingPages => event is LockAttempted,
        LaunchState::SpawningMonitor => event is SpawnAttempted,
        LaunchState::ApplyingScheduler => event is SchedulerApplied,
        LaunchState::AwaitingAck => event is FenceObserved,
        LaunchState::StartingFallback => event is FallbackSpawned,
        LaunchState::RealtimeActive => false,
        LaunchState::FallbackActive => false,
        LaunchState::Aborted { .. } => false,
    }
}

/// A recoverable real-time failure: fatal under `RealtimeOnly`, the fallback
/// path otherwise.
pub open spec fn degrade_or_abort(strategy: Strategy) -> (LaunchState, LaunchAction) {
    if strategy is RealtimeOnly {
        abort_with(FatalReason::RealtimeUnavailable)
    } else {
        (LaunchState::StartingFallback, LaunchAction::StartFallback)
    }
}

/// The terminal pair for an unrecoverable setup failure.
pub open spec fn abort_with(reason: FatalReason) -> (LaunchState, LaunchAction) {
    (LaunchState::Aborted { reason }, LaunchAction::Terminate { reason })
}

/// The launch protocol's transition relation: from the current state and the
/// reported outcome to the next state and the next action.
pub open spec fn transition(strategy: Strategy, state: LaunchState, event: LaunchEvent) -> (
    LaunchState,
    LaunchAction,
)
    recommends
        awaits(state, event),
{
    match (state, event) {
        (LaunchState::SizingPage, LaunchEvent::PageSized { page_size, context_size }) => {
            if context_size as int <= page_size as int {
                (LaunchState::MappingContext, LaunchAction::MapContextPage)
            } else {
                abort_with(FatalReason::PageTooSmall)
            }
        },
        (LaunchState::MappingContext, LaunchEvent::MapAttempted { succeeded }) => {
            if !succeeded {
                abort_with(FatalReason::MapFailed)
            } else if strategy is FallbackOnly {
                (LaunchState::StartingFallback, LaunchAction::StartFallback)
            } else {
                (LaunchState::ProbingCapability, LaunchAction::ProbeCapability)
            }
        },
        (LaunchState::ProbingCapability, LaunchEvent::CapabilityProbed { usable }) => {
            if usable {
                (LaunchState::CheckingEntry, LaunchAction::ResolveEntry)
            } else {
                degrade_or_abort(strategy)
            }
        },
        (LaunchState::CheckingEntry, LaunchEvent::EntryResolved { entry, page }) => {
            if page > 0 && entry % page == 0 {
                (LaunchState::LockingPages, LaunchAction::LockPages)
            } else {
                abort_with(FatalReason::EntryMisaligned)
            }
        },
        (LaunchState::LockingPages, LaunchEvent::LockAttempted { both_locked }) => {
            if both_locked {
                (LaunchState::SpawningMonitor, LaunchAction::SpawnMonitor)
            } else {
                degrade_or_abort(strategy)
            }
        },
        (LaunchState::SpawningMonitor, LaunchEvent::SpawnAttempted { pid }) => {
            if pid > 0 {
                (LaunchState::ApplyingScheduler, LaunchAction::ApplyScheduler)
            } else {
                abort_with(FatalReason::SpawnFailed)
            }
        },
        (LaunchState::ApplyingScheduler, LaunchEvent::SchedulerApplied { accepted }) => {
            if accepted {
                (LaunchState::AwaitingAck, LaunchAction::RequestStartAndObserve)
            } else {
                abort_with(FatalReason::SchedulingRejected)
            }
        },
        (LaunchState::AwaitingAck, LaunchEvent::FenceObserved { fence }) => {
            if fence == FENCE_START_ACKNOWLEDGED {
                (LaunchState::RealtimeActive, LaunchAction::ReturnRealtimeHandle)
            } else {
                (LaunchState::AwaitingAck, LaunchAction::WaitAndObserve)
            }
        },
        (LaunchState::StartingFallback, LaunchEvent::FallbackSpawned) => {
            (LaunchState::FallbackActive, LaunchAction::ReturnFallbackHandle)
        },
        _ => arbitrary(),
    }
}

/// One step of the launch protocol, exactly the transition relation.
pub fn launch_step(strategy: Strategy, state: LaunchState, event: LaunchEvent) -> (r: (
    LaunchState,
    LaunchAction,
))
    requires
        awaits(state, event),
    ensures
        r == transition(strategy, state, event),
{
    match (state, event) {
        (LaunchState::SizingPage, LaunchEvent::PageSized { page_size, context_size }) => {
            if page_size >= 0 && context_size as u64 <= page_size as u64 {
                (LaunchState::MappingContext, LaunchAction::MapContextPage)
            } else {
                abort_step(FatalReason::PageTooSmall)
            }
        },
        (LaunchState::MappingContext, LaunchEvent::MapAttempted { succeeded }) => {
            if !succeeded {
                abort_step(FatalReason::MapFailed)
            } else if matches!(strategy, Strategy::FallbackOnly) {
                (LaunchState::StartingFallback, LaunchAction::StartFallback)
            } else {
                (LaunchState::ProbingCapability, LaunchAction::ProbeCapability)
            }
        },
        (LaunchState::ProbingCapability, LaunchEvent::CapabilityProbed { usable }) => {
            if usable {
                (LaunchState::CheckingEntry, LaunchAction::ResolveEntry)
            } else {
                degrade_step(strategy)
            }
        },
        (LaunchState::CheckingEntry, LaunchEvent::EntryResolved { entry, page }) => {
            if page > 0 && entry % page == 0 {
                (LaunchState::LockingPages, LaunchAction::LockPages)
            } else {
                abort_step(FatalReason::EntryMisaligned)
            }
        },
        (LaunchState::LockingPages, LaunchEvent::LockAttempted { both_locked }) => {
            if both_locked {
                (LaunchState::SpawningMonitor, LaunchAction::SpawnMonitor)
            } else {
                degrade_step(strategy)
            }
        },
        (LaunchState::SpawningMonitor, LaunchEvent::SpawnAttempted { pid }) => {
            if pid > 0 {
                (LaunchState::ApplyingScheduler, LaunchAction::ApplyScheduler)
            } else {
                abort_step(FatalReason::SpawnFailed)
            }
        },
        (LaunchState::ApplyingScheduler, LaunchEvent::SchedulerApplied { accepted }) => {
            if accepted {
                (LaunchState::AwaitingAck, LaunchAction::RequestStartAndObserve)
            } else {
                abort_step(FatalReason::SchedulingRejected)
            }
        },
        (LaunchState::AwaitingAck, LaunchEvent::FenceObserved { fence }) => {
            if fence == FENCE_START_ACKNOWLEDGED {
                (LaunchState::RealtimeActive, LaunchAction::ReturnRealtimeHandle)
            } else {
                (LaunchState::AwaitingAck, LaunchAction::WaitAndObserve)
            }
        },
        (LaunchState::StartingFallback, LaunchEvent::FallbackSpawned) => {
            (LaunchState::FallbackActive, LaunchAction::ReturnFallbackHandle)
        },
        _ => {
            proof {
                assert(false);
            }
            vstd::pervasive::unreached()
        },
    }
}

/// Executable form of `abort_with`.
fn abort_step(reason: FatalReason) -> (r: (LaunchState, LaunchAction))
    ensures
        r == abort_with(reason),
{
    (LaunchState::Aborted { reason }, LaunchAction::Terminate { reason })
}

/// Executable form of `degrade_or_abort`.
fn degrade_step(strategy: Strategy) -> (r: (LaunchState, LaunchAction))
    ensures
        r == degrade_or_abort(strategy),
{
    if matches!(strategy, Strategy::RealtimeOnly) {
        abort_step(FatalReason::RealtimeUnavailable)
    } else {
        (LaunchState::StartingFallback, LaunchAction::StartFallback)
    }
}

/// Whether the event answers what the state awaits; the runtime checks this
/// before each step.
pub fn awaits_event(state: &LaunchState, event: &LaunchEvent) -> (b: bool)
    ensures
        b == awaits(*state, *event),
{
    match (state, event) {
        (LaunchState::SizingPage, LaunchEvent::PageSized { .. }) => true,
        (LaunchState::MappingContext, LaunchEvent::MapAttempted { .. }) => true,
        (LaunchState::ProbingCapability, LaunchEvent::CapabilityProbed { .. }) => true,
        (LaunchState::CheckingEntry, LaunchEvent::EntryResolved { .. }) => true,
        (LaunchState::LockingPages, LaunchEvent::LockAttempted { .. }) => true,
        (LaunchState::SpawningMonitor, LaunchEvent::SpawnAttempted { .. }) => true,
        (LaunchState::ApplyingScheduler, LaunchEvent::SchedulerApplied { .. }) => true,
        (LaunchState::AwaitingAck, LaunchEvent::FenceObserved { .. }) => true,
        (LaunchState::StartingFallback, LaunchEvent::FallbackSpawned) => true,
        _ => false,
    }
}

/// Policy law: under `RealtimeOnly` the launch never enters the fallback
/// path. From any state outside that path, no event produces the degradation
/// action, a fallback handle, or a fallback state.
pub proof fn lemma_realtime_only_never_falls_back(state: LaunchState, event: LaunchEvent)
    requires
        awaits(state, event),
        !(state is StartingFallback),
        !(state is FallbackActive),
    ensures
        ({
            let (next, action) = transition(Strategy::RealtimeOnly, state, event);
            &&& !(next is StartingFallback)
            &&& !(next is FallbackActive)
            &&& !(action is StartFallback)
            &&& !(action is ReturnFallbackHandle)
        }),
{
}

/// Policy law: under `RealtimeOnly`, a host without usable deadline
/// scheduling terminates the process at startup; no handle is produced.
pub proof fn lemma_realtime_only_incapable_aborts()
    ensures
        transition(
            Strategy::RealtimeOnly,
            LaunchState::ProbingCapability,
            LaunchEvent::CapabilityProbed { usable: false },
        ) == abort_with(FatalReason::RealtimeUnavailable),
{
}

/// Degradation law: under `RealtimeOrFallback`, a host without usable
/// deadline scheduling degrades silently — the launch emits the diagnostic
/// and spawns the fallback monitor, and its confirmation yields a usable
/// fallback handle rather than an abort.
pub proof fn lemma_or_fallback_degrades()
    ensures
        transition(
            Strategy::RealtimeOrFallback,
            LaunchState::ProbingCapability,
            LaunchEvent::CapabilityProbed { usable: false },
        ) == (LaunchState::StartingFallback, LaunchAction::StartFallback),
        transition(
            Strategy::RealtimeOrFallback,
            LaunchState::StartingFallback,
            LaunchEvent::FallbackSpawned,
        ) == (LaunchState::FallbackActive, LaunchAction::ReturnFallbackHandle),
{
}

/// Consistency law: the action a step names matches the state it enters — a
/// handle is produced exactly when a monitor is confirmed running, of the
/// matching kind, and termination exactly on entering the aborted state; so
/// exactly one monitor exists for one context, never both, and a handle never
/// precedes a live monitor.
pub proof fn lemma_actions_match_states(strategy: Strategy, state: LaunchState, event: LaunchEvent)
    requires
        awaits(state, event),
    ensures
        ({
            let (next, action) = transition(strategy, state, event);
            &&& action is ReturnRealtimeHandle <==> next is RealtimeActive
            &&& action is ReturnFallbackHandle <==> next is FallbackActive
            &&& action is Terminate <==> next is Aborted
        }),
{
}

/// A well-formed run: each event in turn answers what the state reached so
/// far awaits.
pub open spec fn run_ok(strategy: Strategy, state: LaunchState, events: Seq<LaunchEvent>) -> bool
    decreases events.len(),
{
    events.len() == 0 || (awaits(state, events[0]) && run_ok(
        strategy,
        transition(strategy, state, events[0]).0,
        events.drop_first(),
    ))
}

/// The state a run reaches: the transition relation folded over the events.
pub open spec fn run_from(strategy: Strategy, state: LaunchState, events: Seq<LaunchEvent>) -> LaunchState
    decreases events.len(),
{
    if events.len() == 0 {
        state
    } else {
        run_from(strategy, transition(strategy, state, events[0]).0, events.drop_first())
    }
}

/// Policy law, over whole runs: starting anywhere outside the fallback path —
/// in particular at the initial state — no sequence of outcomes brings a
/// `RealtimeOnly` launch to a fallback monitor. Its only exits are a live
/// real-time monitor or termination at startup.
pub proof fn lemma_realtime_only_run_never_falls_back(
    state: LaunchState,
    events: Seq<LaunchEvent>,
)
    requires
        run_ok(Strategy::RealtimeOnly, state, events),
        !(state is StartingFallback),
        !(state is FallbackActive),
    ensures
        !(run_from(Strategy::RealtimeOnly, state, events) is StartingFallback),
        !(run_from(Strategy::RealtimeOnly, state, events) is FallbackActive),
    decreases events.len(),
{
    if events.len() > 0 {
        lemma_realtime_only_never_falls_back(state, events[0]);
        lemma_realtime_only_run_never_falls_back(
            transition(Strategy::RealtimeOnly, state, events[0]).0,
            events.drop_first(),
        );
    }
}

/// Handshake law: a real-time handle is produced only on observing the
/// start-acknowledged fence value; any other observation waits again.
pub proof fn lemma_handle_only_after_ack(strategy: Strategy, fence: u32)
    ensures
        fence == FENCE_START_ACKNOWLEDGED ==> transition(
            strategy,
            LaunchState::AwaitingAck,
            LaunchEvent::FenceObserved { fence },
        ) == (LaunchState::RealtimeActive, LaunchAction::ReturnRealtimeHandle),
        fence != FENCE_START_ACKNOWLEDGED ==> transition(
            strategy,
            LaunchState::AwaitingAck,
            LaunchEvent::FenceObserved { fence },
        ) == (LaunchState::AwaitingAck, LaunchAction::WaitAndObserve),
{
}

} // verus!
