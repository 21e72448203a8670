//! The start sequence, as a machine from state and event to the next state
//! and the action to perform.
//!
//! A child this host already tracks is never started twice. A service
//! already answering on the port is left alone and not adopted. Otherwise a
//! recorded pid from an earlier session is reconciled (asked to clean up and
//! killed when still alive) and its record cleared, then the packaged
//! executable is started, and failing that the development fallback.

use vstd::prelude::*;
use crate::endpoint::{CLEANUP_TIMEOUT_EXIT_MS, SERVICE_PORT};

verus! {

#[derive(Clone, Copy, Debug, PartialEq, Eq, Structural)]
pub enum StartStatus {
    /// This host already tracks a child.
    AlreadyTracked,
    /// Something already serves the port; it was left as it is.
    ExternalInstance,
    SidecarStarted,
    FallbackStarted,
}

#[derive(Debug)]
pub enum LaunchError {
    /// The backend directory that the fallback runs in is missing.
    BackendDirMissing,
    /// Both ways of starting failed; both causes are kept.
    SpawnFailed { sidecar: String, fallback: String },
}

#[derive(Debug)]
pub enum StartState {
    Idle,
    ProbingPort,
    ReadingPid,
    CheckingPid { pid: u32 },
    CleaningStale { pid: u32 },
    KillingStale { pid: u32 },
    ClearingPid,
    SpawningSidecar,
    SpawningFallback { sidecar_error: String },
    Done { result: Result<StartStatus, LaunchError> },
}

#[derive(Debug)]
pub enum StartEvent {
    /// `holding`: whether the child slot already holds a child.
    Begin { holding: bool },
    PortProbed { in_use: bool },
    PidRead { pid: Option<u32> },
    PidLiveness { alive: bool },
    CleanupFinished,
    StaleKilled,
    PidCleared,
    Spawned { pid: u32 },
    SpawnFailed { error: String },
    /// The fallback's working directory does not exist.
    BackendDirMissing,
}

#[derive(Debug)]
pub enum StartAction {
    ProbePort { port: u16 },
    ReadPidRecord,
    CheckAlive { pid: u32 },
    RequestCleanup { timeout_ms: u64 },
    KillPid { pid: u32 },
    ClearPidRecord,
    SpawnSidecar,
    SpawnFallback,
    /// Keep the new child in the slot, record its pid, add it to the
    /// kill-on-close group and drain its output.
    Track { pid: u32 },
    /// The sequence is over; its result is in the state.
    Finish,
    /// The event does not belong to this state; nothing to do.
    Ignore,
}

pub open spec fn start_next(s: StartState, e: StartEvent) -> (StartState, StartAction) {
    match (s, e) {
        (StartState::Idle, StartEvent::Begin { holding }) => if holding {
            (
                StartState::Done { result: Ok(StartStatus::AlreadyTracked) },
                StartAction::Finish,
            )
        } else {
            (StartState::ProbingPort, StartAction::ProbePort { port: SERVICE_PORT })
        },
        (StartState::ProbingPort, StartEvent::PortProbed { in_use }) => if in_use {
            (
                StartState::Done { result: Ok(StartStatus::ExternalInstance) },
                StartAction::Finish,
            )
        } else {
            (StartState::ReadingPid, StartAction::ReadPidRecord)
        },
        (StartState::ReadingPid, StartEvent::PidRead { pid }) => match pid {
            Some(p) => (StartState::CheckingPid { pid: p }, StartAction::CheckAlive { pid: p }),
            None => (StartState::SpawningSidecar, StartAction::SpawnSidecar),
        },
        (StartState::CheckingPid { pid }, StartEvent::PidLiveness { alive }) => if alive {
            (
                StartState::CleaningStale { pid },
                StartAction::RequestCleanup { timeout_ms: CLEANUP_TIMEOUT_EXIT_MS },
            )
        } else {
            (StartState::ClearingPid, StartAction::ClearPidRecord)
        },
        (StartState::CleaningStale { pid }, StartEvent::CleanupFinished) => (
            StartState::KillingStale { pid },
            StartAction::KillPid { pid },
        ),
        (StartState::KillingStale { .. }, StartEvent::StaleKilled) => (
            StartState::ClearingPid,
            StartAction::ClearPidRecord,
        ),
        (StartState::ClearingPid, StartEvent::PidCleared) => (
            StartState::SpawningSidecar,
            StartAction::SpawnSidecar,
        ),
        (StartState::SpawningSidecar, StartEvent::Spawned { pid }) => (
            StartState::Done { result: Ok(StartStatus::SidecarStarted) },
            StartAction::Track { pid },
        ),
        (StartState::SpawningSidecar, StartEvent::SpawnFailed { error }) => (
            StartState::SpawningFallback { sidecar_error: error },
            StartAction::SpawnFallback,
        ),
        (StartState::SpawningFallback { .. }, StartEvent::Spawned { pid }) => (
            StartState::Done { result: Ok(StartStatus::FallbackStarted) },
            StartAction::Track { pid },
        ),
        (StartState::SpawningFallback { sidecar_error }, StartEvent::SpawnFailed { error }) => (
            StartState::Done {
                result: Err(LaunchError::SpawnFailed { sidecar: sidecar_error, fallback: error }),
            },
            StartAction::Finish,
        ),
        (StartState::SpawningFallback { .. }, StartEvent::BackendDirMissing) => (
            StartState::Done { result: Err(LaunchError::BackendDirMissing) },
            StartAction::Finish,
        ),
        (s, _) => (s, StartAction::Ignore),
    }
}

/// One step of the start sequence.
pub fn start_step(s: StartState, e: StartEvent) -> (r: (StartState, StartAction))
    ensures
        r == start_next(s, e),
{
    match (s, e) {
        (StartState::Idle, StartEvent::Begin { holding }) => {
            if holding {
                (StartState::Done { result: Ok(StartStatus::AlreadyTracked) }, StartAction::Finish)
            } else {
                (StartState::ProbingPort, StartAction::ProbePort { port: SERVICE_PORT })
            }
        },
        (StartState::ProbingPort, StartEvent::PortProbed { in_use }) => {
            if in_use {
                (StartState::Done { result: Ok(StartStatus::ExternalInstance) }, StartAction::Finish)
            } else {
                (StartState::ReadingPid, StartAction::ReadPidRecord)
            }
        },
        (StartState::ReadingPid, StartEvent::PidRead { pid }) => match pid {
            Some(p) => (StartState::CheckingPid { pid: p }, StartAction::CheckAlive { pid: p }),
            None => (StartState::SpawningSidecar, StartAction::SpawnSidecar),
        },
        (StartState::CheckingPid { pid }, StartEvent::PidLiveness { alive }) => {
            if alive {
                (
                    StartState::CleaningStale { pid },
                    StartAction::RequestCleanup { timeout_ms: CLEANUP_TIMEOUT_EXIT_MS },
                )
            } else {
                (StartState::ClearingPid, StartAction::ClearPidRecord)
            }
        },
        (StartState::CleaningStale { pid }, StartEvent::CleanupFinished) => (
            StartState::KillingStale { pid },
            StartAction::KillPid { pid },
        ),
        (StartState::KillingStale { .. }, StartEvent::StaleKilled) => (
            StartState::ClearingPid,
            StartAction::ClearPidRecord,
        ),
        (StartState::ClearingPid, StartEvent::PidCleared) => (
            StartState::SpawningSidecar,
            StartAction::SpawnSidecar,
        ),
        (StartState::SpawningSidecar, StartEvent::Spawned { pid }) => (
            StartState::Done { result: Ok(StartStatus::SidecarStarted) },
            StartAction::Track { pid },
        ),
        (StartState::SpawningSidecar, StartEvent::SpawnFailed { error }) => (
            StartState::SpawningFallback { sidecar_error: error },
            StartAction::SpawnFallback,
        ),
        (StartState::SpawningFallback { .. }, StartEvent::Spawned { pid }) => (
            StartState::Done { result: Ok(StartStatus::FallbackStarted) },
            StartAction::Track { pid },
        ),
        (StartState::SpawningFallback { sidecar_error }, StartEvent::SpawnFailed { error }) => (
            StartState::Done {
                result: Err(LaunchError::SpawnFailed { sidecar: sidecar_error, fallback: error }),
            },
            StartAction::Finish,
        ),
        (StartState::SpawningFallback { .. }, StartEvent::BackendDirMissing) => (
            StartState::Done { result: Err(LaunchError::BackendDirMissing) },
            StartAction::Finish,
        ),
        (s, _) => (s, StartAction::Ignore),
    }
}

/// The state reached and the actions asked for when the events `es` are fed
/// to the sequence from state `s`.
pub open spec fn start_run(s: StartState, es: Seq<StartEvent>) -> (StartState, Seq<StartAction>)
    decreases es.len(),
{
    if es.len() == 0 {
        (s, Seq::empty())
    } else {
        let (s1, a1) = start_next(s, es[0]);
        let (sf, rest) = start_run(s1, es.drop_first());
        (sf, seq![a1] + rest)
    }
}

/// An action that starts a child or takes one over.
pub open spec fn creates_child(a: StartAction) -> bool {
    a is SpawnSidecar || a is SpawnFallback || a is Track
}

/// An action that acts on the process behind a recorded pid.
pub open spec fn touches_stale(a: StartAction) -> bool {
    a is KillPid || a is RequestCleanup
}

/// States from which the recorded pid is no longer acted upon.
pub open spec fn past_reconcile(s: StartState) -> bool {
    s is ClearingPid || s is SpawningSidecar || s is SpawningFallback || s is Done
}

proof fn lemma_done_is_final(result: Result<StartStatus, LaunchError>, es: Seq<StartEvent>)
    ensures
        start_run(StartState::Done { result }, es).0 == (StartState::Done { result }),
        forall|i: int|
            0 <= i < start_run(StartState::Done { result }, es).1.len() ==> (
            #[trigger] start_run(StartState::Done { result }, es).1[i]) is Ignore,
    decreases es.len(),
{
    if es.len() > 0 {
        lemma_done_is_final(result, es.drop_first());
        let acts = start_run(StartState::Done { result }, es).1;
        let rest = start_run(StartState::Done { result }, es.drop_first()).1;
        assert(acts == seq![StartAction::Ignore] + rest);
        assert forall|i: int| 0 <= i < acts.len() implies (#[trigger] acts[i]) is Ignore by {
            if i > 0 {
                assert(acts[i] == rest[i - 1]);
            }
        }
    }
}

proof fn lemma_past_reconcile_leaves_stale_alone(s: StartState, es: Seq<StartEvent>)
    requires
        past_reconcile(s),
    ensures
        forall|i: int|
            0 <= i < start_run(s, es).1.len() ==> !touches_stale(#[trigger] start_run(s, es).1[i]),
    decreases es.len(),
{
    if es.len() > 0 {
        let (s1, a1) = start_next(s, es[0]);
        lemma_past_reconcile_leaves_stale_alone(s1, es.drop_first());
        let acts = start_run(s, es).1;
        let rest = start_run(s1, es.drop_first()).1;
        assert(acts == seq![a1] + rest);
        assert forall|i: int| 0 <= i < acts.len() implies !touches_stale(#[trigger] acts[i]) by {
            if i > 0 {
                assert(acts[i] == rest[i - 1]);
            }
        }
    }
}

/// When the service port is found in use, start reports an instance that is
/// already running and never starts or takes over a child, whatever follows.
pub proof fn lemma_port_in_use_never_spawns(es: Seq<StartEvent>)
    requires
        es.len() >= 2,
        es[0] == (StartEvent::Begin { holding: false }),
        es[1] == (StartEvent::PortProbed { in_use: true }),
    ensures
        start_run(StartState::Idle, es).0 == (StartState::Done {
            result: Ok(StartStatus::ExternalInstance),
        }),
        forall|i: int|
            0 <= i < start_run(StartState::Idle, es).1.len() ==> !creates_child(
                #[trigger] start_run(StartState::Idle, es).1[i],
            ),
{
    let done = StartState::Done { result: Ok(StartStatus::ExternalInstance) };
    let tail = es.drop_first().drop_first();
    lemma_done_is_final(Ok(StartStatus::ExternalInstance), tail);
    let acts = start_run(StartState::Idle, es).1;
    let mid = start_run(StartState::ProbingPort, es.drop_first()).1;
    let rest = start_run(done, tail).1;
    assert(mid == seq![StartAction::Finish] + rest);
    assert(acts == seq![StartAction::ProbePort { port: SERVICE_PORT }] + mid);
    assert forall|i: int| 0 <= i < acts.len() implies !creates_child(#[trigger] acts[i]) by {
        if i > 1 {
            assert(acts[i] == rest[i - 2]);
        }
    }
}

/// A recorded pid whose process is gone is cleared without anything being
/// killed or asked to clean up, and a new child is then started.
pub proof fn lemma_dead_record_cleared_then_spawned(pid: u32, es: Seq<StartEvent>)
    requires
        es.len() >= 5,
        es[0] == (StartEvent::Begin { holding: false }),
        es[1] == (StartEvent::PortProbed { in_use: false }),
        es[2] == (StartEvent::PidRead { pid: Some(pid) }),
        es[3] == (StartEvent::PidLiveness { alive: false }),
        es[4] == StartEvent::PidCleared,
    ensures
        start_run(StartState::Idle, es).1[3] == StartAction::ClearPidRecord,
        start_run(StartState::Idle, es).1[4] == StartAction::SpawnSidecar,
        forall|i: int|
            0 <= i < start_run(StartState::Idle, es).1.len() ==> !touches_stale(
                #[trigger] start_run(StartState::Idle, es).1[i],
            ),
{
    let e1 = es.drop_first();
    let e2 = e1.drop_first();
    let e3 = e2.drop_first();
    let e4 = e3.drop_first();
    assert(e1[0] == es[1]);
    assert(e2[0] == es[2]);
    assert(e3[0] == es[3]);
    assert(e4[0] == es[4]);
    lemma_past_reconcile_leaves_stale_alone(StartState::ClearingPid, e4);
    let r4 = start_run(StartState::ClearingPid, e4).1;
    let r3 = start_run(StartState::CheckingPid { pid }, e3).1;
    let r2 = start_run(StartState::ReadingPid, e2).1;
    let r1 = start_run(StartState::ProbingPort, e1).1;
    let acts = start_run(StartState::Idle, es).1;
    assert(r3 == seq![StartAction::ClearPidRecord] + r4);
    assert(r2 == seq![StartAction::CheckAlive { pid }] + r3);
    assert(r1 == seq![StartAction::ReadPidRecord] + r2);
    assert(acts == seq![StartAction::ProbePort { port: SERVICE_PORT }] + r1);
    assert(r4[0] == StartAction::SpawnSidecar);
    assert forall|i: int| 0 <= i < acts.len() implies !touches_stale(#[trigger] acts[i]) by {
        if i > 3 {
            assert(acts[i] == r4[i - 4]);
        }
    }
}

/// While this host holds a child, start reports it and never starts or
/// takes over another, whatever follows.
pub proof fn lemma_held_child_never_respawned(es: Seq<StartEvent>)
    requires
        es.len() >= 1,
        es[0] == (StartEvent::Begin { holding: true }),
    ensures
        start_run(StartState::Idle, es).0 == (StartState::Done {
            result: Ok(StartStatus::AlreadyTracked),
        }),
        forall|i: int|
            0 <= i < start_run(StartState::Idle, es).1.len() ==> !creates_child(
                #[trigger] start_run(StartState::Idle, es).1[i],
            ),
{
    let done = StartState::Done { result: Ok(StartStatus::AlreadyTracked) };
    let tail = es.drop_first();
    lemma_done_is_final(Ok(StartStatus::AlreadyTracked), tail);
    let acts = start_run(StartState::Idle, es).1;
    let rest = start_run(done, tail).1;
    assert(acts == seq![StartAction::Finish] + rest);
    assert forall|i: int| 0 <= i < acts.len() implies !creates_child(#[trigger] acts[i]) by {
        if i > 0 {
            assert(acts[i] == rest[i - 1]);
        }
    }
}

} // verus!
