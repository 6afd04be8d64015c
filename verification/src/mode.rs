//! The mode transition manager.
//!
//! The game is always in exactly one of three modes. A transition is
//! requested, not applied: a fade effect runs for `FADE_DURATION_MS`,
//! and only when it completes does the target mode become current. A
//! request is rejected (a no-op) while a fade is already in flight or
//! when the target is the mode already current; once accepted, a fade
//! always completes — there is no cancel path.

use vstd::prelude::*;

verus! {

/// How long the fade that frames every mode switch runs.
pub const FADE_DURATION_MS: u32 = 1000;

/// Top-level game phase. Exactly one is current at any time.
#[derive(Clone, Copy, PartialEq, Eq, Structural, Debug)]
pub enum GameState {
    StartMenu,
    Overworld,
    Combat,
}

/// Owns the current mode and the in-flight fade, if any. The current
/// mode changes only through `tick_fade` completing an accepted request.
#[derive(Clone, Copy, PartialEq, Eq, Structural, Debug)]
pub struct ModeManager {
    pub current: GameState,
    pub pending: Option<GameState>,
    pub fade_remaining_ms: u32,
}

impl ModeManager {
    /// A fade timer runs exactly while a request is pending, and a
    /// pending target is never the mode already current.
    pub open spec fn wf(self) -> bool {
        &&& (self.pending is None ==> self.fade_remaining_ms == 0)
        &&& (self.pending matches Some(t) ==> t != self.current && 0 < self.fade_remaining_ms
            <= FADE_DURATION_MS)
    }

    /// State after a transition request: accepted only when no fade is
    /// in flight and the target differs from the current mode; otherwise
    /// the request is a no-op.
    pub open spec fn spec_request(self, target: GameState) -> ModeManager {
        if self.pending is None && target != self.current {
            ModeManager { current: self.current, pending: Some(target), fade_remaining_ms: FADE_DURATION_MS }
        } else {
            self
        }
    }

    pub fn new() -> (m: ModeManager)
        ensures
            m == (ModeManager {
                current: GameState::StartMenu,
                pending: None,
                fade_remaining_ms: 0u32,
            }),
            m.wf(),
    {
        ModeManager { current: GameState::StartMenu, pending: None, fade_remaining_ms: 0 }
    }

    /// Request a transition to `target`. Rejected — leaving the state
    /// unchanged — while a fade is in flight or when `target` is already
    /// current; the current mode itself never changes here.
    pub fn request_transition(&mut self, target: GameState) -> (accepted: bool)
        requires
            old(self).wf(),
        ensures
            *final(self) == old(self).spec_request(target),
            accepted == (old(self).pending is None && target != old(self).current),
            final(self).current == old(self).current,
            final(self).wf(),
    {
        if self.pending.is_none() && target != self.current {
            self.pending = Some(target);
            self.fade_remaining_ms = FADE_DURATION_MS;
            true
        } else {
            false
        }
    }

    /// Advance the fade by one tick's elapsed time. When the fade
    /// completes, the pending target becomes the current mode and is
    /// returned; otherwise nothing is observable yet.
    pub fn tick_fade(&mut self, dt_ms: u32) -> (entered: Option<GameState>)
        requires
            old(self).wf(),
        ensures
            final(self).wf(),
            old(self).pending is None ==> *final(self) == *old(self) && entered is None,
            old(self).pending matches Some(t) ==> (if dt_ms >= old(self).fade_remaining_ms {
                &&& final(self).current == t
                &&& final(self).pending is None
                &&& final(self).fade_remaining_ms == 0
                &&& entered == Some(t)
            } else {
                &&& final(self).current == old(self).current
                &&& final(self).pending == old(self).pending
                &&& final(self).fade_remaining_ms == old(self).fade_remaining_ms - dt_ms
                &&& entered is None
            }),
    {
        match self.pending {
            None => None,
            Some(target) => {
                if dt_ms >= self.fade_remaining_ms {
                    self.current = target;
                    self.pending = None;
                    self.fade_remaining_ms = 0;
                    Some(target)
                } else {
                    self.fade_remaining_ms = self.fade_remaining_ms - dt_ms;
                    None
                }
            },
        }
    }
}

/// Requesting the same transition twice is the same as requesting it
/// once — the second request always finds either a fade in flight or the
/// target already current — and while the target mode is already current
/// a request leaves the state entirely unchanged.
pub proof fn lemma_request_idempotent(m: ModeManager, target: GameState)
    ensures
        m.spec_request(target).spec_request(target) == m.spec_request(target),
        m.current == target ==> m.spec_request(target) == m,
{
}

} // verus!
