//! The shutdown sequence, as a machine from state and event to the next state
//! and the action to perform.
//!
//! The caller performs each action and reports its result as the next event.
//! The sequence asks the backend to clean up, kills the child this host
//! started, in the update case also a recorded pid that is still alive, waits
//! until the port (and, before an update, the executable) is released or the
//! time is up, and always ends by clearing the pid record.

use vstd::prelude::*;
use crate::endpoint::{CLEANUP_TIMEOUT_EXIT_MS, CLEANUP_TIMEOUT_UPDATE_MS, SERVICE_PORT};
use crate::retry::RetryPolicy;

verus! {

#[derive(Clone, Copy, Debug, PartialEq, Eq, Structural)]
pub enum ShutdownMode {
    /// An update is about to overwrite the executable.
    PreUpdate,
    /// The host is closing.
    NormalExit,
}

#[derive(Clone, Copy, Debug, PartialEq, Eq, Structural)]
pub enum ShutdownState {
    Idle,
    CleaningUp,
    TakingChild,
    KillingChild,
    ReadingPid,
    CheckingPid { pid: u32 },
    KillingPid { pid: u32 },
    AwaitingClock { attempt: u64 },
    Probing { attempt: u64 },
    Sleeping { attempt: u64 },
    Clearing { timed_out: bool },
    Done { timed_out: bool },
}

#[derive(Clone, Copy, Debug, PartialEq, Eq, Structural)]
pub enum ShutdownEvent {
    Begin,
    /// The cleanup request ended, however it ended.
    CleanupFinished,
    /// The child slot was emptied; `held` tells whether it held a child.
    ChildTaken { held: bool },
    ChildKilled,
    PidRead { pid: Option<u32> },
    PidLiveness { alive: bool },
    PidKilled,
    /// Milliseconds since the wait for release began.
    Clock { elapsed_ms: u64 },
    Probed { port_in_use: bool, unlocked: bool },
    Slept,
    Cleared,
}

#[derive(Clone, Copy, Debug, PartialEq, Eq, Structural)]
pub enum ShutdownAction {
    RequestCleanup { timeout_ms: u64 },
    /// Empty the child slot, keeping what it held for `KillChild`.
    TakeChild,
    KillChild,
    ReadPidRecord,
    CheckAlive { pid: u32 },
    KillPid { pid: u32 },
    ReadClock,
    /// Is the port in use; and, when `check_lock`, is the executable free.
    Probe { port: u16, check_lock: bool },
    Sleep { ms: u64 },
    ClearPidRecord,
    /// The sequence is over; `timed_out` when the release was not seen.
    Finish { timed_out: bool },
    /// The event does not belong to this state; nothing to do.
    Ignore,
}

pub open spec fn cleanup_timeout(mode: ShutdownMode) -> u64 {
    match mode {
        ShutdownMode::PreUpdate => CLEANUP_TIMEOUT_UPDATE_MS,
        ShutdownMode::NormalExit => CLEANUP_TIMEOUT_EXIT_MS,
    }
}

/// Where the sequence goes once the child is dealt with: the update path
/// also looks for a recorded pid; the exit path starts waiting.
pub open spec fn after_child(mode: ShutdownMode) -> (ShutdownState, ShutdownAction) {
    match mode {
        ShutdownMode::PreUpdate => (ShutdownState::ReadingPid, ShutdownAction::ReadPidRecord),
        ShutdownMode::NormalExit => (
            ShutdownState::AwaitingClock { attempt: 0 },
            ShutdownAction::ReadClock,
        ),
    }
}

pub open spec fn all_clear(mode: ShutdownMode, port_in_use: bool, unlocked: bool) -> bool {
    !port_in_use && (mode == ShutdownMode::NormalExit || unlocked)
}

pub open spec fn next_attempt(a: u64) -> u64 {
    if a < u64::MAX {
        (a + 1) as u64
    } else {
        a
    }
}

pub open spec fn shutdown_next(
    mode: ShutdownMode,
    policy: RetryPolicy,
    s: ShutdownState,
    e: ShutdownEvent,
) -> (ShutdownState, ShutdownAction) {
    match (s, e) {
        (ShutdownState::Idle, ShutdownEvent::Begin) => (
            ShutdownState::CleaningUp,
            ShutdownAction::RequestCleanup { timeout_ms: cleanup_timeout(mode) },
        ),
        (ShutdownState::CleaningUp, ShutdownEvent::CleanupFinished) => (
            ShutdownState::TakingChild,
            ShutdownAction::TakeChild,
        ),
        (ShutdownState::TakingChild, ShutdownEvent::ChildTaken { held }) => if held {
            (ShutdownState::KillingChild, ShutdownAction::KillChild)
        } else {
            after_child(mode)
        },
        (ShutdownState::KillingChild, ShutdownEvent::ChildKilled) => after_child(mode),
        (ShutdownState::ReadingPid, ShutdownEvent::PidRead { pid }) => match pid {
            Some(p) => (ShutdownState::CheckingPid { pid: p }, ShutdownAction::CheckAlive { pid: p }),
            None => (ShutdownState::AwaitingClock { attempt: 0 }, ShutdownAction::ReadClock),
        },
        (ShutdownState::CheckingPid { pid }, ShutdownEvent::PidLiveness { alive }) => if alive {
            (ShutdownState::KillingPid { pid }, ShutdownAction::KillPid { pid })
        } else {
            (ShutdownState::AwaitingClock { attempt: 0 }, ShutdownAction::ReadClock)
        },
        (ShutdownState::KillingPid { .. }, ShutdownEvent::PidKilled) => (
            ShutdownState::AwaitingClock { attempt: 0 },
            ShutdownAction::ReadClock,
        ),
        (ShutdownState::AwaitingClock { attempt }, ShutdownEvent::Clock { elapsed_ms }) => if policy.spec_may_attempt(
            attempt as nat,
            elapsed_ms as nat,
        ) {
            (
                ShutdownState::Probing { attempt },
                ShutdownAction::Probe {
                    port: SERVICE_PORT,
                    check_lock: mode == ShutdownMode::PreUpdate,
                },
            )
        } else {
            (ShutdownState::Clearing { timed_out: true }, ShutdownAction::ClearPidRecord)
        },
        (ShutdownState::Probing { attempt }, ShutdownEvent::Probed { port_in_use, unlocked }) => if all_clear(
            mode,
            port_in_use,
            unlocked,
        ) {
            (ShutdownState::Clearing { timed_out: false }, ShutdownAction::ClearPidRecord)
        } else {
            (
                ShutdownState::Sleeping { attempt },
                ShutdownAction::Sleep { ms: policy.spec_delay_after(attempt as nat) },
            )
        },
        (ShutdownState::Sleeping { attempt }, ShutdownEvent::Slept) => (
            ShutdownState::AwaitingClock { attempt: next_attempt(attempt) },
            ShutdownAction::ReadClock,
        ),
        (ShutdownState::Clearing { timed_out }, ShutdownEvent::Cleared) => (
            ShutdownState::Done { timed_out },
            ShutdownAction::Finish { timed_out },
        ),
        _ => (s, ShutdownAction::Ignore),
    }
}

fn exec_after_child(mode: ShutdownMode) -> (r: (ShutdownState, ShutdownAction))
    ensures
        r == after_child(mode),
{
    match mode {
        ShutdownMode::PreUpdate => (ShutdownState::ReadingPid, ShutdownAction::ReadPidRecord),
        ShutdownMode::NormalExit => (
            ShutdownState::AwaitingClock { attempt: 0 },
            ShutdownAction::ReadClock,
        ),
    }
}

/// One step of the shutdown sequence.
pub fn shutdown_step(
    mode: ShutdownMode,
    policy: &RetryPolicy,
    s: ShutdownState,
    e: ShutdownEvent,
) -> (r: (ShutdownState, ShutdownAction))
    requires
        policy.well_formed(),
    ensures
        r == shutdown_next(mode, *policy, s, e),
{
    match (s, e) {
        (ShutdownState::Idle, ShutdownEvent::Begin) => {
            let timeout_ms = match mode {
                ShutdownMode::PreUpdate => CLEANUP_TIMEOUT_UPDATE_MS,
                ShutdownMode::NormalExit => CLEANUP_TIMEOUT_EXIT_MS,
            };
            (ShutdownState::CleaningUp, ShutdownAction::RequestCleanup { timeout_ms })
        },
        (ShutdownState::CleaningUp, ShutdownEvent::CleanupFinished) => (
            ShutdownState::TakingChild,
            ShutdownAction::TakeChild,
        ),
        (ShutdownState::TakingChild, ShutdownEvent::ChildTaken { held }) => {
            if held {
                (ShutdownState::KillingChild, ShutdownAction::KillChild)
            } else {
                exec_after_child(mode)
            }
        },
        (ShutdownState::KillingChild, ShutdownEvent::ChildKilled) => exec_after_child(mode),
        (ShutdownState::ReadingPid, ShutdownEvent::PidRead { pid }) => match pid {
            Some(p) => (ShutdownState::CheckingPid { pid: p }, ShutdownAction::CheckAlive { pid: p }),
            None => (ShutdownState::AwaitingClock { attempt: 0 }, ShutdownAction::ReadClock),
        },
        (ShutdownState::CheckingPid { pid }, ShutdownEvent::PidLiveness { alive }) => {
            if alive {
                (ShutdownState::KillingPid { pid }, ShutdownAction::KillPid { pid })
            } else {
                (ShutdownState::AwaitingClock { attempt: 0 }, ShutdownAction::ReadClock)
            }
        },
        (ShutdownState::KillingPid { .. }, ShutdownEvent::PidKilled) => (
            ShutdownState::AwaitingClock { attempt: 0 },
            ShutdownAction::ReadClock,
        ),
        (ShutdownState::AwaitingClock { attempt }, ShutdownEvent::Clock { elapsed_ms }) => {
            if policy.may_attempt(attempt, elapsed_ms) {
                let check_lock = match mode {
                    ShutdownMode::PreUpdate => true,
                    ShutdownMode::NormalExit => false,
                };
                (ShutdownState::Probing { attempt }, ShutdownAction::Probe { port: SERVICE_PORT, check_lock })
            } else {
                (ShutdownState::Clearing { timed_out: true }, ShutdownAction::ClearPidRecord)
            }
        },
        (ShutdownState::Probing { attempt }, ShutdownEvent::Probed { port_in_use, unlocked }) => {
            let clear = match mode {
                ShutdownMode::PreUpdate => !port_in_use && unlocked,
                ShutdownMode::NormalExit => !port_in_use,
            };
            if clear {
                (ShutdownState::Clearing { timed_out: false }, ShutdownAction::ClearPidRecord)
            } else {
                (ShutdownState::Sleeping { attempt }, ShutdownAction::Sleep { ms: policy.delay_after(attempt) })
            }
        },
        (ShutdownState::Sleeping { attempt }, ShutdownEvent::Slept) => {
            let next = if attempt < u64::MAX {
                attempt + 1
            } else {
                attempt
            };
            (ShutdownState::AwaitingClock { attempt: next }, ShutdownAction::ReadClock)
        },
        (ShutdownState::Clearing { timed_out }, ShutdownEvent::Cleared) => (
            ShutdownState::Done { timed_out },
            ShutdownAction::Finish { timed_out },
        ),
        _ => (s, ShutdownAction::Ignore),
    }
}

/// The state reached and the actions asked for when the events `es` are fed
/// to the sequence from state `s`.
pub open spec fn shutdown_run(
    mode: ShutdownMode,
    policy: RetryPolicy,
    s: ShutdownState,
    es: Seq<ShutdownEvent>,
) -> (ShutdownState, Seq<ShutdownAction>)
    decreases es.len(),
{
    if es.len() == 0 {
        (s, Seq::empty())
    } else {
        let (s1, a1) = shutdown_next(mode, policy, s, es[0]);
        let (sf, rest) = shutdown_run(mode, policy, s1, es.drop_first());
        (sf, seq![a1] + rest)
    }
}

pub open spec fn is_kill(a: ShutdownAction) -> bool {
    a is KillChild || a is KillPid
}

/// An event that reports nothing to kill: no child in the slot, no live
/// process behind the recorded pid.
pub open spec fn reports_nothing_to_kill(e: ShutdownEvent) -> bool {
    e != (ShutdownEvent::ChildTaken { held: true }) && e != (ShutdownEvent::PidLiveness { alive: true })
}

pub open spec fn ends_sequence(s: ShutdownState) -> bool {
    s is Clearing || s is Done
}

pub open spec fn before_child(s: ShutdownState) -> bool {
    s is Idle || s is CleaningUp || s is TakingChild
}

/// When no child is held and no recorded pid is alive, shutdown asks for no
/// kill at all, whatever the events and however often it is run: on an empty
/// state it is a no-op apart from its cleanup request, waiting and clearing.
pub proof fn lemma_shutdown_on_empty_state_kills_nothing(
    mode: ShutdownMode,
    policy: RetryPolicy,
    s: ShutdownState,
    es: Seq<ShutdownEvent>,
)
    requires
        forall|i: int| 0 <= i < es.len() ==> reports_nothing_to_kill(#[trigger] es[i]),
    ensures
        forall|i: int|
            0 <= i < shutdown_run(mode, policy, s, es).1.len() ==> !is_kill(
                #[trigger] shutdown_run(mode, policy, s, es).1[i],
            ),
    decreases es.len(),
{
    if es.len() > 0 {
        let (s1, a1) = shutdown_next(mode, policy, s, es[0]);
        assert(reports_nothing_to_kill(es[0]));
        assert forall|i: int| 0 <= i < es.drop_first().len() implies reports_nothing_to_kill(
            #[trigger] es.drop_first()[i],
        ) by {
            assert(es.drop_first()[i] == es[i + 1]);
        }
        lemma_shutdown_on_empty_state_kills_nothing(mode, policy, s1, es.drop_first());
        let acts = shutdown_run(mode, policy, s, es).1;
        let rest = shutdown_run(mode, policy, s1, es.drop_first()).1;
        assert(acts == seq![a1] + rest);
        assert forall|i: int| 0 <= i < acts.len() implies !is_kill(#[trigger] acts[i]) by {
            if i > 0 {
                assert(acts[i] == rest[i - 1]);
            }
        }
    }
}

proof fn lemma_run_reaching_end_clears(
    mode: ShutdownMode,
    policy: RetryPolicy,
    s: ShutdownState,
    es: Seq<ShutdownEvent>,
)
    ensures
        ends_sequence(shutdown_run(mode, policy, s, es).0) ==> ends_sequence(s)
            || shutdown_run(mode, policy, s, es).1.contains(ShutdownAction::ClearPidRecord),
    decreases es.len(),
{
    if es.len() > 0 {
        let (s1, a1) = shutdown_next(mode, policy, s, es[0]);
        lemma_run_reaching_end_clears(mode, policy, s1, es.drop_first());
        let acts = shutdown_run(mode, policy, s, es).1;
        let rest = shutdown_run(mode, policy, s1, es.drop_first()).1;
        assert(acts == seq![a1] + rest);
        if ends_sequence(shutdown_run(mode, policy, s, es).0) && !ends_sequence(s) {
            if ends_sequence(s1) {
                assert(acts[0] == ShutdownAction::ClearPidRecord);
            } else {
                let k = choose|k: int| 0 <= k < rest.len() && rest[k] == ShutdownAction::ClearPidRecord;
                assert(acts[k + 1] == ShutdownAction::ClearPidRecord);
            }
        }
    }
}

/// A shutdown that has finished, whether the release was seen or the wait
/// timed out, has asked for the pid record to be cleared.
pub proof fn lemma_finished_shutdown_cleared_record(
    mode: ShutdownMode,
    policy: RetryPolicy,
    es: Seq<ShutdownEvent>,
)
    ensures
        shutdown_run(mode, policy, ShutdownState::Idle, es).0 is Done ==> shutdown_run(
            mode,
            policy,
            ShutdownState::Idle,
            es,
        ).1.contains(ShutdownAction::ClearPidRecord),
{
    lemma_run_reaching_end_clears(mode, policy, ShutdownState::Idle, es);
}

proof fn lemma_past_child_never_kills_child(
    mode: ShutdownMode,
    policy: RetryPolicy,
    s: ShutdownState,
    es: Seq<ShutdownEvent>,
)
    requires
        !before_child(s),
    ensures
        !shutdown_run(mode, policy, s, es).1.contains(ShutdownAction::KillChild),
    decreases es.len(),
{
    if es.len() > 0 {
        let (s1, a1) = shutdown_next(mode, policy, s, es[0]);
        lemma_past_child_never_kills_child(mode, policy, s1, es.drop_first());
        let acts = shutdown_run(mode, policy, s, es).1;
        let rest = shutdown_run(mode, policy, s1, es.drop_first()).1;
        assert(acts == seq![a1] + rest);
        if acts.contains(ShutdownAction::KillChild) {
            let k = choose|k: int| 0 <= k < acts.len() && acts[k] == ShutdownAction::KillChild;
            assert(k > 0);
            assert(rest[k - 1] == ShutdownAction::KillChild);
        }
    }
}

/// One shutdown asks at most once to kill the child it took.
pub proof fn lemma_child_killed_at_most_once(
    mode: ShutdownMode,
    policy: RetryPolicy,
    s: ShutdownState,
    es: Seq<ShutdownEvent>,
)
    ensures
        forall|i: int, j: int|
            0 <= i < j < shutdown_run(mode, policy, s, es).1.len() ==> !(
            #[trigger] shutdown_run(mode, policy, s, es).1[i] == ShutdownAction::KillChild
                && #[trigger] shutdown_run(mode, policy, s, es).1[j] == ShutdownAction::KillChild),
    decreases es.len(),
{
    if es.len() > 0 {
        let (s1, a1) = shutdown_next(mode, policy, s, es[0]);
        lemma_child_killed_at_most_once(mode, policy, s1, es.drop_first());
        let acts = shutdown_run(mode, policy, s, es).1;
        let rest = shutdown_run(mode, policy, s1, es.drop_first()).1;
        assert(acts == seq![a1] + rest);
        if a1 == ShutdownAction::KillChild {
            lemma_past_child_never_kills_child(mode, policy, s1, es.drop_first());
        }
        assert forall|i: int, j: int|
            0 <= i < j < acts.len() implies !(#[trigger] acts[i] == ShutdownAction::KillChild
            && #[trigger] acts[j] == ShutdownAction::KillChild) by {
            if i == 0 {
                if a1 == ShutdownAction::KillChild && acts[j] == ShutdownAction::KillChild {
                    assert(rest[j - 1] == ShutdownAction::KillChild);
                    assert(rest.contains(ShutdownAction::KillChild));
                }
            } else {
                assert(acts[i] == rest[i - 1]);
                assert(acts[j] == rest[j - 1]);
            }
        }
    }
}

/// The wait for release cannot outlast its deadline: the first clock reading
/// at or past it ends the wait and clears the record.
pub proof fn lemma_wait_ends_at_deadline(
    mode: ShutdownMode,
    policy: RetryPolicy,
    attempt: u64,
    elapsed_ms: u64,
)
    requires
        elapsed_ms >= policy.deadline_ms,
    ensures
        shutdown_next(
            mode,
            policy,
            ShutdownState::AwaitingClock { attempt },
            ShutdownEvent::Clock { elapsed_ms },
        ) == (ShutdownState::Clearing { timed_out: true }, ShutdownAction::ClearPidRecord),
{
}

} // verus!
