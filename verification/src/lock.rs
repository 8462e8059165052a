use vstd::prelude::*;

verus! {

/// Where the session lock stands.
#[derive(Debug, Clone, Copy, PartialEq, Eq, Structural)]
pub enum LockState {
    Unlocked,
    Locked,
    WaitingForBlank,
    WaitingForLockSurfaces,
}

/// What an output has shown since a lock was requested.
#[derive(Debug, Clone, Copy, PartialEq, Eq, Structural)]
pub enum LockRenderState {
    PendingUnlock,
    Unlocked,
    PendingBlank,
    PendingLockSurface,
    Blanked,
    LockSurface,
}

/// The session-lock state machine: the lock state, and whether a lock
/// client is attached.
#[derive(Debug, Clone, Copy, PartialEq, Eq, Structural)]
pub struct LockManager {
    pub state: LockState,
    pub has_lock: bool,
}

/// How a new lock request is answered.
#[derive(Debug, Clone, Copy, PartialEq, Eq, Structural)]
pub enum NewLockOutcome {
    /// A lock client is already attached: the new one is destroyed.
    Denied,
    /// Locking begins: show the locked tree, clear every seat's focus, and
    /// give the lock surfaces 200 ms to render.
    Started,
    /// The new client takes over a session that is already locking; if it
    /// is fully locked, the client is told so at once.
    Takeover { send_locked: bool },
}

/// The milliseconds lock surfaces get to render before the lock falls back
/// to blank outputs.
pub const LOCK_SURFACES_TIMEOUT_MS: i32 = 200;

/// An enabled output has at least gone blank.
pub open spec fn blanked(s: LockRenderState) -> bool {
    s == LockRenderState::Blanked || s == LockRenderState::LockSurface
}

/// Every enabled output satisfies `p`.
pub open spec fn all_enabled(
    outputs: Seq<(bool, LockRenderState)>,
    p: spec_fn(LockRenderState) -> bool,
) -> bool {
    forall|i: int| 0 <= i < outputs.len() && #[trigger] outputs[i].0 ==> p(outputs[i].1)
}

pub open spec fn is_blanked() -> spec_fn(LockRenderState) -> bool {
    |s: LockRenderState| blanked(s)
}

pub open spec fn shows_lock_surface() -> spec_fn(LockRenderState) -> bool {
    |s: LockRenderState| s == LockRenderState::LockSurface
}

impl LockManager {
    /// No lock, nothing locked.
    pub fn new() -> (m: LockManager)
        ensures
            m.state == LockState::Unlocked,
            !m.has_lock,
    {
        LockManager { state: LockState::Unlocked, has_lock: false }
    }

    /// A lock client asks to lock the session.
    pub fn new_lock(&mut self) -> (r: NewLockOutcome)
        ensures
            old(self).has_lock ==> r == NewLockOutcome::Denied && *final(self) == *old(self),
            !old(self).has_lock && old(self).state == LockState::Unlocked ==> r
                == NewLockOutcome::Started && *final(self) == (LockManager {
                state: LockState::WaitingForLockSurfaces,
                has_lock: true,
            }),
            !old(self).has_lock && old(self).state != LockState::Unlocked ==> r
                == (NewLockOutcome::Takeover {
                send_locked: old(self).state == LockState::Locked,
            }) && *final(self) == (LockManager { state: old(self).state, has_lock: true }),
    {
        if self.has_lock {
            return NewLockOutcome::Denied;
        }
        self.has_lock = true;
        if self.state == LockState::Unlocked {
            self.state = LockState::WaitingForLockSurfaces;
            NewLockOutcome::Started
        } else {
            NewLockOutcome::Takeover { send_locked: self.state == LockState::Locked }
        }
    }

    /// The lock client went away. A lock still waiting for its surfaces
    /// falls back to waiting for blank outputs (the returned `true` says
    /// the surfaces timer is to be disarmed); a locked session stays
    /// locked.
    pub fn lock_destroyed(&mut self) -> (disarm_timer: bool)
        ensures
            !final(self).has_lock,
            disarm_timer == (old(self).state == LockState::WaitingForLockSurfaces),
            final(self).state == (if old(self).state == LockState::WaitingForLockSurfaces {
                LockState::WaitingForBlank
            } else {
                old(self).state
            }),
    {
        self.has_lock = false;
        if self.state == LockState::WaitingForLockSurfaces {
            self.state = LockState::WaitingForBlank;
            true
        } else {
            false
        }
    }

    /// The lock client unlocks the session.
    pub fn unlock(&mut self)
        ensures
            *final(self) == (LockManager { state: LockState::Unlocked, has_lock: false }),
    {
        self.state = LockState::Unlocked;
        let _ = self.lock_destroyed();
    }

    /// Lock the session (the client is told it is locked).
    pub fn send_locked(&mut self)
        ensures
            *final(self) == (LockManager { state: LockState::Locked, ..*old(self) }),
    {
        self.state = LockState::Locked;
    }

    /// Lock once every enabled output shows what the current wait asks
    /// for: a lock surface while waiting for lock surfaces, at least blank
    /// while waiting for blank. `outputs` holds, per output, whether it is
    /// enabled and what it has rendered. Returns whether the session just
    /// became locked.
    pub fn maybe_lock(&mut self, outputs: &Vec<(bool, LockRenderState)>) -> (locked: bool)
        ensures
            locked == ((old(self).state == LockState::WaitingForLockSurfaces && all_enabled(
                outputs@,
                shows_lock_surface(),
            )) || (old(self).state == LockState::WaitingForBlank && all_enabled(
                outputs@,
                is_blanked(),
            ))),
            locked ==> *final(self) == (LockManager { state: LockState::Locked, ..*old(self) }),
            !locked ==> *final(self) == *old(self),
    {
        let mut all_blanked = true;
        let mut all_rendered = true;
        let mut i: usize = 0;
        while i < outputs.len()
            invariant
                i <= outputs.len(),
                all_blanked == (forall|j: int|
                    0 <= j < i && #[trigger] outputs@[j].0 ==> blanked(outputs@[j].1)),
                all_rendered == (forall|j: int|
                    0 <= j < i && #[trigger] outputs@[j].0 ==> outputs@[j].1
                        == LockRenderState::LockSurface),
            decreases outputs.len() - i,
        {
            let (enabled, render) = outputs[i];
            if enabled {
                match render {
                    LockRenderState::PendingUnlock
                    | LockRenderState::Unlocked
                    | LockRenderState::PendingBlank
                    | LockRenderState::PendingLockSurface => {
                        all_blanked = false;
                        all_rendered = false;
                    },
                    LockRenderState::Blanked => {
                        all_rendered = false;
                    },
                    LockRenderState::LockSurface => {},
                }
            }
            i = i + 1;
        }
        match self.state {
            LockState::WaitingForLockSurfaces => {
                if all_rendered {
                    self.send_locked();
                    return true;
                }
                false
            },
            LockState::WaitingForBlank => {
                if all_blanked {
                    self.send_locked();
                    return true;
                }
                false
            },
            _ => false,
        }
    }

    /// The lock surfaces did not all render in time: fall back to waiting
    /// for blank outputs, and lock if they already are.
    pub fn lock_surfaces_timeout(&mut self, outputs: &Vec<(bool, LockRenderState)>) -> (locked:
        bool)
        requires
            old(self).state == LockState::WaitingForLockSurfaces,
        ensures
            locked == all_enabled(outputs@, is_blanked()),
            final(self).has_lock == old(self).has_lock,
            final(self).state == (if locked {
                LockState::Locked
            } else {
                LockState::WaitingForBlank
            }),
    {
        self.state = LockState::WaitingForBlank;
        self.maybe_lock(outputs)
    }
}

/// A session locks only through an output state that hides the desktop:
/// whenever `maybe_lock` locks, every enabled output is at least blank.
pub proof fn lemma_locked_only_when_hidden(outputs: Seq<(bool, LockRenderState)>)
    ensures
        all_enabled(outputs, shows_lock_surface()) ==> all_enabled(outputs, is_blanked()),
{
}

} // verus!
