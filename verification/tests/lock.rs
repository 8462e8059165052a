use cce_fx::lock::{LockManager, LockRenderState, LockState, NewLockOutcome};


#[test]
fn a_lock_starts_waits_for_its_surfaces_and_locks() {
    let mut m = LockManager::new();
    assert_eq!(m.new_lock(), NewLockOutcome::Started);
    assert_eq!(m.state, LockState::WaitingForLockSurfaces);
    assert!(!m.maybe_lock(&vec![(true, LockRenderState::LockSurface), (true, LockRenderState::PendingLockSurface)]));
    assert_eq!(m.state, LockState::WaitingForLockSurfaces);
    assert!(m.maybe_lock(&vec![(true, LockRenderState::LockSurface), (false, LockRenderState::Unlocked), (true, LockRenderState::LockSurface)]));
    assert_eq!(m.state, LockState::Locked);
}

#[test]
fn a_second_client_is_denied() {
    let mut m = LockManager::new();
    m.new_lock();
    assert_eq!(m.new_lock(), NewLockOutcome::Denied);
}

#[test]
fn a_client_takes_over_after_the_first_went_away() {
    let mut m = LockManager::new();
    m.new_lock();
    assert!(m.lock_destroyed(), "the surfaces timer is disarmed");
    assert_eq!(m.state, LockState::WaitingForBlank);
    assert!(!m.has_lock);
    assert_eq!(m.new_lock(), NewLockOutcome::Takeover { send_locked: false });
    assert!(m.maybe_lock(&vec![(true, LockRenderState::Blanked), (true, LockRenderState::LockSurface)]));
    assert!(!m.lock_destroyed());
    assert_eq!(m.state, LockState::Locked, "a locked session stays locked without its client");
    assert_eq!(m.new_lock(), NewLockOutcome::Takeover { send_locked: true });
}

#[test]
fn the_surfaces_timeout_falls_back_to_blank_outputs() {
    let mut m = LockManager::new();
    m.new_lock();
    assert!(!m.lock_surfaces_timeout(&vec![(true, LockRenderState::Blanked), (true, LockRenderState::PendingBlank)]));
    assert_eq!(m.state, LockState::WaitingForBlank);
    assert!(m.maybe_lock(&vec![(true, LockRenderState::Blanked), (true, LockRenderState::Blanked)]));

    let mut m = LockManager::new();
    m.new_lock();
    assert!(m.lock_surfaces_timeout(&vec![(true, LockRenderState::Blanked), (false, LockRenderState::PendingBlank)]));
    assert_eq!(m.state, LockState::Locked);
}

#[test]
fn unlocking_clears_everything() {
    let mut m = LockManager::new();
    m.new_lock();
    m.send_locked();
    m.unlock();
    assert_eq!(m, LockManager::new());
    assert!(!m.maybe_lock(&vec![]), "nothing locks while unlocked");
}
