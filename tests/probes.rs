use plattera_supervisor::child_slot::TrackedSlot;
use plattera_supervisor::job_group::{assign_pid_to_job, create_kill_on_close_job, JobHandle};
use plattera_supervisor::lock_probe::{lock_verdict, probe_path, RenameProbe};
use plattera_supervisor::retry::{health_warmup, shutdown_polling, RetryPolicy};

#[test]
fn missing_file_is_unlocked() {
    let v = lock_verdict(RenameProbe::Missing);
    assert!(v.unlocked);
    assert!(!v.restore_failed);
}

#[test]
fn refused_move_is_locked() {
    let v = lock_verdict(RenameProbe::MoveRefused);
    assert!(!v.unlocked);
    assert!(!v.restore_failed);
}

#[test]
fn failed_restore_still_unlocked_but_flagged() {
    let v = lock_verdict(RenameProbe::NotRestored);
    assert!(v.unlocked);
    assert!(v.restore_failed);
    let w = lock_verdict(RenameProbe::Restored);
    assert!(w.unlocked);
    assert!(!w.restore_failed);
}

#[test]
fn probe_name_appends_suffix() {
    assert_eq!(probe_path("C:/app/plattera-backend.exe"), "C:/app/plattera-backend.exe.__lockprobe__");
}

#[test]
fn slot_takes_once() {
    let mut slot: TrackedSlot<u32> = TrackedSlot::new();
    assert!(!slot.is_held());
    assert_eq!(slot.install(5), None);
    assert!(slot.is_held());
    assert_eq!(slot.install(6), Some(6));
    assert_eq!(slot.take(), Some(5));
    assert_eq!(slot.take(), None);
    assert!(!slot.is_held());
}

#[test]
fn job_group_absent() {
    assert!(create_kill_on_close_job().is_none());
    assert!(!assign_pid_to_job(&JobHandle, 1234));
}

#[test]
fn fixed_policy_until_deadline() {
    let p = shutdown_polling();
    assert!(p.may_attempt(0, 0));
    assert!(p.may_attempt(1000, 9_999));
    assert!(!p.may_attempt(0, 10_000));
    assert_eq!(p.delay_after(0), 250);
    assert_eq!(p.delay_after(500), 250);
}

#[test]
fn backoff_policy_schedule() {
    let p = health_warmup();
    assert_eq!(p.delay_after(0), 500);
    assert_eq!(p.delay_after(1), 1000);
    assert_eq!(p.delay_after(2), 1500);
    assert_eq!(p.delay_after(3), 2500);
    assert!(p.may_attempt(3, 100_000));
    assert!(!p.may_attempt(4, 0));
}

#[test]
fn custom_fixed_policy() {
    let p = RetryPolicy::fixed(100, 300);
    assert!(p.may_attempt(2, 299));
    assert!(!p.may_attempt(2, 300));
    assert_eq!(p.delay_after(7), 100);
}
