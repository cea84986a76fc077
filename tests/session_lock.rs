use dash3::session_lock::{Coordinator, LockAction, LockEvent, SessionLockState};

fn locked_with(seed: &[u32]) -> Coordinator {
    let (mut c, acts) = Coordinator::start(&seed.to_vec());
    assert_eq!(acts, vec![LockAction::RequestLock]);
    c.step(LockEvent::LockGranted);
    c
}

#[test]
fn seed_outputs_get_one_surface_each_and_unlock_tears_them_down() {
    let (mut c, acts) = Coordinator::start(&vec![1, 2]);
    assert_eq!(acts, vec![LockAction::RequestLock]);
    assert_eq!(c.state(), SessionLockState::AwaitingLock);
    assert_eq!(c.live_surfaces(), 0);

    let acts = c.step(LockEvent::LockGranted);
    assert_eq!(acts, vec![LockAction::CreateSurface(1), LockAction::CreateSurface(2)]);
    assert_eq!(c.state(), SessionLockState::Locked);
    assert_eq!(c.live_surfaces(), 2);

    let acts = c.step(LockEvent::UnlockRequested);
    assert_eq!(
        acts,
        vec![
            LockAction::DestroySurface(1),
            LockAction::DestroySurface(2),
            LockAction::ReleaseLock,
            LockAction::Stop,
        ]
    );
    assert_eq!(c.state(), SessionLockState::Finished);
    assert_eq!(c.live_surfaces(), 0);
    assert!(!c.is_running());
}

#[test]
fn output_added_after_lock_gets_exactly_one_surface() {
    let mut c = locked_with(&[1, 2]);
    let acts = c.step(LockEvent::OutputAdded(3));
    assert_eq!(acts, vec![LockAction::CreateSurface(3)]);
    let acts = c.step(LockEvent::OutputRemoved(1));
    assert_eq!(acts, vec![LockAction::DestroySurface(1)]);
    assert_eq!(c.live_surfaces(), 2);
    assert!(c.has_surface(3));
    assert!(c.has_surface(2));
    assert!(!c.has_surface(1));
    // A repeated advertisement creates nothing more.
    assert_eq!(c.step(LockEvent::OutputAdded(3)), vec![]);
    assert_eq!(c.live_surfaces(), 2);
}

#[test]
fn removal_before_addition_is_processed_in_order() {
    let mut c = locked_with(&[1]);
    assert_eq!(c.step(LockEvent::OutputRemoved(1)), vec![LockAction::DestroySurface(1)]);
    assert_eq!(c.step(LockEvent::OutputAdded(4)), vec![LockAction::CreateSurface(4)]);
    assert_eq!(c.live_surfaces(), 1);
    assert!(c.has_surface(4));
}

#[test]
fn removing_an_unknown_output_is_a_no_op() {
    let mut c = locked_with(&[1]);
    assert_eq!(c.step(LockEvent::OutputRemoved(9)), vec![]);
    assert_eq!(c.step(LockEvent::OutputRemoved(1)), vec![LockAction::DestroySurface(1)]);
    assert_eq!(c.step(LockEvent::OutputRemoved(1)), vec![]);
    assert_eq!(c.live_surfaces(), 0);
    assert!(!c.has_output(1));
}

#[test]
fn outputs_before_lock_get_no_surface_until_granted() {
    let mut c = Coordinator::new();
    assert_eq!(c.step(LockEvent::OutputAdded(5)), vec![]);
    assert_eq!(c.step(LockEvent::LockRequested), vec![LockAction::RequestLock]);
    assert_eq!(c.step(LockEvent::OutputAdded(6)), vec![]);
    assert_eq!(c.live_surfaces(), 0);
    assert!(c.has_output(6));
    assert_eq!(
        c.step(LockEvent::LockGranted),
        vec![LockAction::CreateSurface(5), LockAction::CreateSurface(6)]
    );
}

#[test]
fn duplicate_seed_outputs_are_counted_once() {
    let c = locked_with(&[7, 7, 8]);
    assert_eq!(c.live_surfaces(), 2);
}

#[test]
fn unlock_twice_is_unlock_once() {
    let mut c = locked_with(&[1]);
    let first = c.step(LockEvent::UnlockRequested);
    assert_eq!(first, vec![LockAction::DestroySurface(1), LockAction::ReleaseLock, LockAction::Stop]);
    assert_eq!(c.step(LockEvent::UnlockRequested), vec![]);
    assert_eq!(c.state(), SessionLockState::Finished);
}

#[test]
fn unlock_before_lock_is_ignored() {
    let (mut c, _) = Coordinator::start(&vec![1]);
    assert_eq!(c.step(LockEvent::UnlockRequested), vec![]);
    assert_eq!(c.state(), SessionLockState::AwaitingLock);
    assert!(c.is_running());
}

#[test]
fn refused_lock_is_fatal() {
    let (mut c, _) = Coordinator::start(&vec![1]);
    assert_eq!(c.step(LockEvent::LockRefused), vec![LockAction::ReportFatal, LockAction::Stop]);
    assert_eq!(c.state(), SessionLockState::Finished);
    assert_eq!(c.step(LockEvent::LockGranted), vec![]);
    assert_eq!(c.live_surfaces(), 0);
}

#[test]
fn finished_before_lock_is_fatal() {
    let (mut c, _) = Coordinator::start(&vec![]);
    assert_eq!(c.step(LockEvent::Finished), vec![LockAction::ReportFatal, LockAction::Stop]);
    assert!(!c.is_running());
}

#[test]
fn forced_finish_tears_down_and_stops() {
    let mut c = locked_with(&[1, 2]);
    assert_eq!(
        c.step(LockEvent::Finished),
        vec![LockAction::DestroySurface(1), LockAction::DestroySurface(2), LockAction::Stop]
    );
    assert_eq!(c.state(), SessionLockState::Finished);
    assert_eq!(c.step(LockEvent::OutputAdded(3)), vec![]);
    assert_eq!(c.step(LockEvent::UnlockRequested), vec![]);
}

#[test]
fn configure_is_acknowledged_only_for_live_surfaces() {
    let mut c = locked_with(&[1]);
    assert_eq!(
        c.step(LockEvent::Configure { output: 1, serial: 42 }),
        vec![LockAction::AckConfigure { output: 1, serial: 42 }]
    );
    assert_eq!(c.step(LockEvent::Configure { output: 2, serial: 43 }), vec![]);
}

#[test]
fn lock_is_requested_only_once() {
    let (mut c, _) = Coordinator::start(&vec![1]);
    assert_eq!(c.step(LockEvent::LockRequested), vec![]);
}

use dash3::session_lock::SurfaceSlots;

#[test]
fn scheduled_surface_is_made_once() {
    let mut t = SurfaceSlots::new();
    t.schedule(1);
    assert!(t.is_pending(1));
    assert!(t.claim(1));
    assert!(t.is_live(1));
    assert!(!t.is_pending(1));
    assert!(!t.claim(1));
}

#[test]
fn withdrawn_before_made_is_never_made() {
    let mut t = SurfaceSlots::new();
    t.schedule(2);
    assert!(!t.withdraw(2));
    assert!(!t.claim(2));
    assert!(!t.is_live(2));
}

#[test]
fn withdrawing_a_live_surface_asks_for_teardown() {
    let mut t = SurfaceSlots::new();
    t.schedule(3);
    assert!(t.claim(3));
    assert!(t.withdraw(3));
    assert!(!t.is_live(3));
    assert!(!t.withdraw(3));
}

#[test]
fn unscheduled_surface_is_not_made() {
    let mut t = SurfaceSlots::new();
    assert!(!t.claim(4));
    t.schedule(5);
    assert!(!t.claim(4));
    assert!(t.is_pending(5));
}

#[test]
fn scheduling_a_live_surface_changes_nothing() {
    let mut t = SurfaceSlots::new();
    t.schedule(6);
    assert!(t.claim(6));
    t.schedule(6);
    assert!(!t.is_pending(6));
    assert!(t.is_live(6));
}
