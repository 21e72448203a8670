use plattera_supervisor::retry::shutdown_polling;
use plattera_supervisor::shutdown::{
    shutdown_step, ShutdownAction, ShutdownEvent, ShutdownMode, ShutdownState,
};

fn drive(mode: ShutdownMode, events: &[ShutdownEvent]) -> (ShutdownState, Vec<ShutdownAction>) {
    let policy = shutdown_polling();
    let mut state = ShutdownState::Idle;
    let mut actions = Vec::new();
    for e in events {
        let (s, a) = shutdown_step(mode, &policy, state, *e);
        state = s;
        actions.push(a);
    }
    (state, actions)
}

fn is_kill(a: &ShutdownAction) -> bool {
    matches!(a, ShutdownAction::KillChild | ShutdownAction::KillPid { .. })
}

#[test]
fn exit_on_empty_state_kills_nothing() {
    let events = [
        ShutdownEvent::Begin,
        ShutdownEvent::CleanupFinished,
        ShutdownEvent::ChildTaken { held: false },
        ShutdownEvent::Clock { elapsed_ms: 0 },
        ShutdownEvent::Probed { port_in_use: false, unlocked: false },
        ShutdownEvent::Cleared,
    ];
    for _ in 0..2 {
        let (state, actions) = drive(ShutdownMode::NormalExit, &events);
        assert_eq!(state, ShutdownState::Done { timed_out: false });
        assert!(!actions.iter().any(is_kill));
        assert_eq!(
            actions,
            vec![
                ShutdownAction::RequestCleanup { timeout_ms: 1500 },
                ShutdownAction::TakeChild,
                ShutdownAction::ReadClock,
                ShutdownAction::Probe { port: 8000, check_lock: false },
                ShutdownAction::ClearPidRecord,
                ShutdownAction::Finish { timed_out: false },
            ]
        );
    }
}

#[test]
fn update_on_empty_state_kills_nothing() {
    let events = [
        ShutdownEvent::Begin,
        ShutdownEvent::CleanupFinished,
        ShutdownEvent::ChildTaken { held: false },
        ShutdownEvent::PidRead { pid: None },
        ShutdownEvent::Clock { elapsed_ms: 3 },
        ShutdownEvent::Probed { port_in_use: false, unlocked: true },
        ShutdownEvent::Cleared,
    ];
    let (state, actions) = drive(ShutdownMode::PreUpdate, &events);
    assert_eq!(state, ShutdownState::Done { timed_out: false });
    assert!(!actions.iter().any(is_kill));
    assert_eq!(actions[0], ShutdownAction::RequestCleanup { timeout_ms: 3000 });
    assert_eq!(actions[3], ShutdownAction::ReadClock);
    assert_eq!(actions[4], ShutdownAction::Probe { port: 8000, check_lock: true });
}

#[test]
fn update_kills_child_then_live_recorded_pid() {
    let events = [
        ShutdownEvent::Begin,
        ShutdownEvent::CleanupFinished,
        ShutdownEvent::ChildTaken { held: true },
        ShutdownEvent::ChildKilled,
        ShutdownEvent::PidRead { pid: Some(4321) },
        ShutdownEvent::PidLiveness { alive: true },
        ShutdownEvent::PidKilled,
    ];
    let (state, actions) = drive(ShutdownMode::PreUpdate, &events);
    assert_eq!(state, ShutdownState::AwaitingClock { attempt: 0 });
    assert_eq!(actions[2], ShutdownAction::KillChild);
    assert_eq!(actions[3], ShutdownAction::ReadPidRecord);
    assert_eq!(actions[4], ShutdownAction::CheckAlive { pid: 4321 });
    assert_eq!(actions[5], ShutdownAction::KillPid { pid: 4321 });
    assert_eq!(actions[6], ShutdownAction::ReadClock);
}

#[test]
fn exit_does_not_consult_record() {
    let events = [
        ShutdownEvent::Begin,
        ShutdownEvent::CleanupFinished,
        ShutdownEvent::ChildTaken { held: true },
        ShutdownEvent::ChildKilled,
    ];
    let (state, actions) = drive(ShutdownMode::NormalExit, &events);
    assert_eq!(state, ShutdownState::AwaitingClock { attempt: 0 });
    assert_eq!(actions[3], ShutdownAction::ReadClock);
}

#[test]
fn locked_exe_keeps_update_waiting() {
    let events = [
        ShutdownEvent::Begin,
        ShutdownEvent::CleanupFinished,
        ShutdownEvent::ChildTaken { held: false },
        ShutdownEvent::PidRead { pid: None },
        ShutdownEvent::Clock { elapsed_ms: 0 },
        ShutdownEvent::Probed { port_in_use: false, unlocked: false },
        ShutdownEvent::Slept,
        ShutdownEvent::Clock { elapsed_ms: 260 },
        ShutdownEvent::Probed { port_in_use: true, unlocked: true },
    ];
    let (state, actions) = drive(ShutdownMode::PreUpdate, &events);
    assert_eq!(state, ShutdownState::Sleeping { attempt: 1 });
    assert_eq!(actions[5], ShutdownAction::Sleep { ms: 250 });
    assert_eq!(actions[8], ShutdownAction::Sleep { ms: 250 });
}

#[test]
fn unreachable_cleanup_still_kills_and_times_out() {
    let events = [
        ShutdownEvent::Begin,
        ShutdownEvent::CleanupFinished,
        ShutdownEvent::ChildTaken { held: true },
        ShutdownEvent::ChildKilled,
        ShutdownEvent::Clock { elapsed_ms: 0 },
        ShutdownEvent::Probed { port_in_use: true, unlocked: true },
        ShutdownEvent::Slept,
        ShutdownEvent::Clock { elapsed_ms: 10_000 },
        ShutdownEvent::Cleared,
    ];
    let (state, actions) = drive(ShutdownMode::NormalExit, &events);
    assert_eq!(actions[2], ShutdownAction::KillChild);
    assert_eq!(actions[7], ShutdownAction::ClearPidRecord);
    assert_eq!(actions[8], ShutdownAction::Finish { timed_out: true });
    assert_eq!(state, ShutdownState::Done { timed_out: true });
}

#[test]
fn update_clears_record_even_on_timeout() {
    let events = [
        ShutdownEvent::Begin,
        ShutdownEvent::CleanupFinished,
        ShutdownEvent::ChildTaken { held: false },
        ShutdownEvent::PidRead { pid: Some(77) },
        ShutdownEvent::PidLiveness { alive: false },
        ShutdownEvent::Clock { elapsed_ms: 12_000 },
        ShutdownEvent::Cleared,
    ];
    let (state, actions) = drive(ShutdownMode::PreUpdate, &events);
    assert!(actions.contains(&ShutdownAction::ClearPidRecord));
    assert!(!actions.iter().any(is_kill));
    assert_eq!(state, ShutdownState::Done { timed_out: true });
}

#[test]
fn stray_events_are_ignored() {
    let policy = shutdown_polling();
    let (s, a) = shutdown_step(ShutdownMode::NormalExit, &policy, ShutdownState::Idle, ShutdownEvent::Cleared);
    assert_eq!(s, ShutdownState::Idle);
    assert_eq!(a, ShutdownAction::Ignore);
    let done = ShutdownState::Done { timed_out: false };
    let (s, a) = shutdown_step(ShutdownMode::PreUpdate, &policy, done, ShutdownEvent::Begin);
    assert_eq!(s, done);
    assert_eq!(a, ShutdownAction::Ignore);
}
