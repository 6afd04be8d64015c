//! The player entity and the progression ledger.
//!
//! The player carries a movement speed, an activity flag (cleared while a
//! transition or combat suspends exploration), a per-tick `just_moved`
//! flag, and an experience accumulator. Crossing the experience threshold
//! applies exactly one level-up per call and keeps the remainder.

use vstd::prelude::*;

use crate::stats::CombatStats;

verus! {

/// Experience points needed for one level-up.
pub const EXP_LEVEL_THRESHOLD: usize = 50;

/// Added to max health, attack and defense on each level-up.
pub const LEVEL_STAT_DELTA: u32 = 2;

/// Health regained on a level-up, applied as one delta and clamped to the
/// raised maximum so the health invariant is kept at the point of mutation.
pub const LEVEL_HEAL: u32 = 4;

/// The player's exploration-side state.
#[derive(Clone, Copy, PartialEq, Eq, Structural, Debug)]
pub struct Player {
    /// Movement speed in milli-tiles per second.
    pub speed: u32,
    /// False while the player is suspended (mid-transition or in combat).
    pub active: bool,
    /// Set each tick on which a move was actually committed.
    pub just_moved: bool,
    /// Running experience total; the residual above each spent threshold
    /// carries over.
    pub exp: usize,
}

/// Stats after one level-up: every stat grows by `LEVEL_STAT_DELTA`, and
/// health is healed by `LEVEL_HEAL`, clamped to the new maximum.
pub open spec fn spec_level_up(s: CombatStats) -> CombatStats {
    let new_max = (s.max_health + LEVEL_STAT_DELTA) as u32;
    let healed = if s.health + LEVEL_HEAL > new_max {
        new_max as int
    } else {
        s.health + LEVEL_HEAL
    };
    CombatStats {
        health: healed as u32,
        max_health: new_max,
        attack: (s.attack + LEVEL_STAT_DELTA) as u32,
        defense: (s.defense + LEVEL_STAT_DELTA) as u32,
    }
}

/// Outcome of granting `amount` experience on top of a running total
/// `exp`: the new residual total, the (possibly levelled) stats, and
/// whether a level-up fired. At most one level-up is applied per grant;
/// any surplus stays in the residual.
pub open spec fn spec_give_exp(exp: int, stats: CombatStats, amount: int) -> (int, CombatStats, bool) {
    if exp + amount >= EXP_LEVEL_THRESHOLD {
        (exp + amount - EXP_LEVEL_THRESHOLD, spec_level_up(stats), true)
    } else {
        (exp + amount, stats, false)
    }
}

impl Player {
    pub fn new(speed: u32) -> (p: Player)
        ensures
            p == (Player { speed, active: true, just_moved: false, exp: 0 }),
    {
        Player { speed, active: true, just_moved: false, exp: 0 }
    }

    /// Add `exp` to the running total; when the total reaches the
    /// threshold, apply exactly one level-up to `stats`, spend the
    /// threshold, and keep the remainder. Returns whether a level-up
    /// fired.
    pub fn give_exp(&mut self, exp: usize, stats: &mut CombatStats) -> (leveled: bool)
        requires
            old(self).exp + exp <= usize::MAX,
            old(stats).wf(),
            old(stats).max_health + LEVEL_STAT_DELTA <= u32::MAX,
            old(stats).attack + LEVEL_STAT_DELTA <= u32::MAX,
            old(stats).defense + LEVEL_STAT_DELTA <= u32::MAX,
        ensures
            (final(self).exp as int, *final(stats), leveled)
                == spec_give_exp(old(self).exp as int, *old(stats), exp as int),
            leveled == (old(self).exp + exp >= EXP_LEVEL_THRESHOLD),
            final(self).speed == old(self).speed,
            final(self).active == old(self).active,
            final(self).just_moved == old(self).just_moved,
            final(stats).wf(),
    {
        self.exp = self.exp + exp;
        if self.exp >= EXP_LEVEL_THRESHOLD {
            stats.max_health = stats.max_health + LEVEL_STAT_DELTA;
            stats.attack = stats.attack + LEVEL_STAT_DELTA;
            stats.defense = stats.defense + LEVEL_STAT_DELTA;
            let healed = stats.health as u64 + LEVEL_HEAL as u64;
            if healed > stats.max_health as u64 {
                stats.health = stats.max_health;
            } else {
                stats.health = healed as u32;
            }
            self.exp = self.exp - EXP_LEVEL_THRESHOLD;
            true
        } else {
            false
        }
    }
}

/// Splitting an experience grant over two calls agrees with one combined
/// call whenever at most one threshold is crossed in total: the residual
/// and the stats come out the same, and exactly one level-up fires per
/// threshold crossing. (With two or more thresholds' worth in total the
/// split grants level twice while the combined grant levels once and
/// keeps the surplus, so such inputs are excluded.)
pub proof fn lemma_give_exp_split(exp: int, stats: CombatStats, a: int, b: int)
    requires
        exp >= 0,
        a >= 0,
        b >= 0,
        exp + a + b < 2 * EXP_LEVEL_THRESHOLD,
    ensures
        ({
            let first = spec_give_exp(exp, stats, a);
            let second = spec_give_exp(first.0, first.1, b);
            let combined = spec_give_exp(exp, stats, a + b);
            second.0 == combined.0
                && second.1 == combined.1
                && (first.2 || second.2) == combined.2
                && !(first.2 && second.2)
        }),
{
}

/// Visibility flags of the player sprite and its child visuals.
#[derive(PartialEq, Eq, Debug)]
pub struct PlayerVisibility {
    pub root: bool,
    pub children: Vec<bool>,
}

impl PlayerVisibility {
    pub open spec fn all_visible(self) -> bool {
        self.root && forall|i: int| 0 <= i < self.children@.len() ==> self.children@[i]
    }

    pub open spec fn all_hidden(self) -> bool {
        !self.root && forall|i: int| 0 <= i < self.children@.len() ==> !self.children@[i]
    }
}

/// Hide the player and every child visual, as one atomic step of the
/// tick: no observer sees a partially hidden hierarchy.
pub fn hide_player(vis: &mut PlayerVisibility)
    ensures
        final(vis).all_hidden(),
        final(vis).children@.len() == old(vis).children@.len(),
{
    vis.root = false;
    let n = vis.children.len();
    let mut i: usize = 0;
    while i < n
        invariant
            i <= n,
            n == vis.children@.len(),
            vis.children@.len() == old(vis).children@.len(),
            !vis.root,
            forall|j: int| 0 <= j < i ==> !vis.children@[j],
        decreases n - i,
    {
        vis.children[i] = false;
        i = i + 1;
    }
}

/// Resume the player on return to exploration: reactivate it and restore
/// visibility for the sprite and every child visual in the same tick.
pub fn show_player(player: &mut Player, vis: &mut PlayerVisibility)
    ensures
        final(player).active,
        final(player).speed == old(player).speed,
        final(player).just_moved == old(player).just_moved,
        final(player).exp == old(player).exp,
        final(vis).all_visible(),
        final(vis).children@.len() == old(vis).children@.len(),
{
    player.active = true;
    vis.root = true;
    let n = vis.children.len();
    let mut i: usize = 0;
    while i < n
        invariant
            i <= n,
            n == vis.children@.len(),
            vis.children@.len() == old(vis).children@.len(),
            vis.root,
            forall|j: int| 0 <= j < i ==> vis.children@[j],
        decreases n - i,
    {
        vis.children[i] = true;
        i = i + 1;
    }
}

} // verus!
