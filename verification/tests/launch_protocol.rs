use watchdog::launch::{
    awaits_event, launch_step, FatalReason, LaunchAction, LaunchEvent, LaunchState,
};
use watchdog::Strategy;

fn step(
    strategy: Strategy,
    state: LaunchState,
    event: LaunchEvent,
) -> (LaunchState, LaunchAction) {
    assert!(awaits_event(&state, &event));
    launch_step(strategy, state, event)
}

#[test]
fn realtime_path_runs_to_a_realtime_handle() {
    let s = Strategy::RealtimeOnly;
    let (st, a) = step(
        s,
        LaunchState::SizingPage,
        LaunchEvent::PageSized { page_size: 4096, context_size: 512 },
    );
    assert_eq!(a, LaunchAction::MapContextPage);
    let (st, a) = step(s, st, LaunchEvent::MapAttempted { succeeded: true });
    assert_eq!(a, LaunchAction::ProbeCapability);
    let (st, a) = step(s, st, LaunchEvent::CapabilityProbed { usable: true });
    assert_eq!(a, LaunchAction::ResolveEntry);
    let (st, a) = step(s, st, LaunchEvent::EntryResolved { entry: 0x20000, page: 4096 });
    assert_eq!(a, LaunchAction::LockPages);
    let (st, a) = step(s, st, LaunchEvent::LockAttempted { both_locked: true });
    assert_eq!(a, LaunchAction::SpawnMonitor);
    let (st, a) = step(s, st, LaunchEvent::SpawnAttempted { pid: 1234 });
    assert_eq!(a, LaunchAction::ApplyScheduler);
    let (st, a) = step(s, st, LaunchEvent::SchedulerApplied { accepted: true });
    assert_eq!(a, LaunchAction::RequestStartAndObserve);
    // first observation: the monitor has not acknowledged yet
    let (st, a) = step(s, st, LaunchEvent::FenceObserved { fence: 1 });
    assert_eq!(st, LaunchState::AwaitingAck);
    assert_eq!(a, LaunchAction::WaitAndObserve);
    // woken after the acknowledgement
    let (st, a) = step(s, st, LaunchEvent::FenceObserved { fence: 2 });
    assert_eq!(st, LaunchState::RealtimeActive);
    assert_eq!(a, LaunchAction::ReturnRealtimeHandle);
}

#[test]
fn fallback_only_skips_the_probe() {
    let s = Strategy::FallbackOnly;
    let (st, a) = step(
        s,
        LaunchState::SizingPage,
        LaunchEvent::PageSized { page_size: 4096, context_size: 512 },
    );
    assert_eq!(a, LaunchAction::MapContextPage);
    let (st, a) = step(s, st, LaunchEvent::MapAttempted { succeeded: true });
    assert_eq!(st, LaunchState::StartingFallback);
    assert_eq!(a, LaunchAction::StartFallback);
    let (st, a) = step(s, st, LaunchEvent::FallbackSpawned);
    assert_eq!(st, LaunchState::FallbackActive);
    assert_eq!(a, LaunchAction::ReturnFallbackHandle);
}

#[test]
fn realtime_only_on_incapable_host_terminates() {
    let s = Strategy::RealtimeOnly;
    let (st, a) = step(
        s,
        LaunchState::ProbingCapability,
        LaunchEvent::CapabilityProbed { usable: false },
    );
    assert_eq!(st, LaunchState::Aborted { reason: FatalReason::RealtimeUnavailable });
    assert_eq!(a, LaunchAction::Terminate { reason: FatalReason::RealtimeUnavailable });
}

#[test]
fn or_fallback_on_incapable_host_degrades() {
    let s = Strategy::RealtimeOrFallback;
    let (st, a) = step(
        s,
        LaunchState::ProbingCapability,
        LaunchEvent::CapabilityProbed { usable: false },
    );
    assert_eq!(st, LaunchState::StartingFallback);
    assert_eq!(a, LaunchAction::StartFallback);
    let (st, a) = step(s, st, LaunchEvent::FallbackSpawned);
    assert_eq!(st, LaunchState::FallbackActive);
    assert_eq!(a, LaunchAction::ReturnFallbackHandle);
}

#[test]
fn lock_failure_degrades_or_aborts_by_policy() {
    let (_, a) = step(
        Strategy::RealtimeOrFallback,
        LaunchState::LockingPages,
        LaunchEvent::LockAttempted { both_locked: false },
    );
    assert_eq!(a, LaunchAction::StartFallback);
    let (_, a) = step(
        Strategy::RealtimeOnly,
        LaunchState::LockingPages,
        LaunchEvent::LockAttempted { both_locked: false },
    );
    assert_eq!(a, LaunchAction::Terminate { reason: FatalReason::RealtimeUnavailable });
}

#[test]
fn setup_failures_are_fatal_for_every_policy() {
    for s in [Strategy::RealtimeOnly, Strategy::FallbackOnly, Strategy::RealtimeOrFallback] {
        let (_, a) = step(
            s,
            LaunchState::SizingPage,
            LaunchEvent::PageSized { page_size: 256, context_size: 512 },
        );
        assert_eq!(a, LaunchAction::Terminate { reason: FatalReason::PageTooSmall });
        let (_, a) = step(s, LaunchState::MappingContext, LaunchEvent::MapAttempted {
            succeeded: false,
        });
        assert_eq!(a, LaunchAction::Terminate { reason: FatalReason::MapFailed });
    }
    // the remaining fatal steps sit on the real-time branch
    for s in [Strategy::RealtimeOnly, Strategy::RealtimeOrFallback] {
        let (_, a) = step(s, LaunchState::SpawningMonitor, LaunchEvent::SpawnAttempted {
            pid: -1,
        });
        assert_eq!(a, LaunchAction::Terminate { reason: FatalReason::SpawnFailed });
        let (_, a) = step(s, LaunchState::ApplyingScheduler, LaunchEvent::SchedulerApplied {
            accepted: false,
        });
        assert_eq!(a, LaunchAction::Terminate { reason: FatalReason::SchedulingRejected });
    }
}

#[test]
fn negative_page_size_cannot_hold_a_context() {
    let (_, a) = step(
        Strategy::FallbackOnly,
        LaunchState::SizingPage,
        LaunchEvent::PageSized { page_size: -1, context_size: 0 },
    );
    assert_eq!(a, LaunchAction::Terminate { reason: FatalReason::PageTooSmall });
}

#[test]
fn misaligned_entry_is_fatal() {
    let (st, a) = step(
        Strategy::RealtimeOrFallback,
        LaunchState::CheckingEntry,
        LaunchEvent::EntryResolved { entry: 0x20010, page: 4096 },
    );
    assert_eq!(st, LaunchState::Aborted { reason: FatalReason::EntryMisaligned });
    assert_eq!(a, LaunchAction::Terminate { reason: FatalReason::EntryMisaligned });
}

#[test]
fn handshake_waits_until_acknowledged() {
    let s = Strategy::RealtimeOrFallback;
    for fence in [0u32, 1] {
        let (st, a) = step(s, LaunchState::AwaitingAck, LaunchEvent::FenceObserved { fence });
        assert_eq!(st, LaunchState::AwaitingAck);
        assert_eq!(a, LaunchAction::WaitAndObserve);
    }
    let (st, a) = step(s, LaunchState::AwaitingAck, LaunchEvent::FenceObserved { fence: 2 });
    assert_eq!(st, LaunchState::RealtimeActive);
    assert_eq!(a, LaunchAction::ReturnRealtimeHandle);
}

#[test]
fn terminal_states_await_nothing() {
    let terminals = [
        LaunchState::RealtimeActive,
        LaunchState::FallbackActive,
        LaunchState::Aborted { reason: FatalReason::MapFailed },
    ];
    for st in terminals {
        assert!(!awaits_event(&st, &LaunchEvent::FallbackSpawned));
        assert!(!awaits_event(&st, &LaunchEvent::FenceObserved { fence: 2 }));
    }
    assert!(!awaits_event(
        &LaunchState::SizingPage,
        &LaunchEvent::MapAttempted { succeeded: true }
    ));
}
