//! Combat statistics and the damage rule.
//!
//! Every combatant (the player and each enemy) carries a `CombatStats`
//! block. Health is kept inside `[0, max_health]` by clamping at every
//! mutation; an attack deals `max(attack - defense, DAMAGE_FLOOR)` damage.

use vstd::prelude::*;

verus! {

/// Minimum damage dealt by a resolved attack. Fixed at 0: defense at or
/// above the attacker's strength fully absorbs the blow, and never heals.
pub const DAMAGE_FLOOR: u32 = 0;

/// Stat block of one combatant. Invariant: `health <= max_health`.
#[derive(Clone, Copy, PartialEq, Eq, Structural, Debug)]
pub struct CombatStats {
    pub health: u32,
    pub max_health: u32,
    pub attack: u32,
    pub defense: u32,
}

/// Clamp a mathematical integer into `[lo, hi]`.
pub open spec fn spec_clamp(v: int, lo: int, hi: int) -> int {
    if v < lo {
        lo
    } else if v > hi {
        hi
    } else {
        v
    }
}

/// Damage dealt by an attacker with strength `attack` against a defender
/// with the given `defense`: `max(attack - defense, DAMAGE_FLOOR)`.
pub open spec fn spec_damage(attack: int, defense: int) -> int {
    if attack - defense > DAMAGE_FLOOR {
        attack - defense
    } else {
        DAMAGE_FLOOR as int
    }
}

impl CombatStats {
    /// Well-formedness: health never exceeds the maximum.
    pub open spec fn wf(self) -> bool {
        self.health <= self.max_health
    }

    /// Health after an attack of the given strength lands on `self`:
    /// `clamp(health - max(attack - defense, DAMAGE_FLOOR), 0, max_health)`.
    pub open spec fn spec_health_after_attack(self, attack: int) -> int {
        spec_clamp(
            self.health - spec_damage(attack, self.defense as int),
            0,
            self.max_health as int,
        )
    }

    pub fn new(health: u32, max_health: u32, attack: u32, defense: u32) -> (r: CombatStats)
        requires
            health <= max_health,
        ensures
            r == (CombatStats { health, max_health, attack, defense }),
            r.wf(),
    {
        CombatStats { health, max_health, attack, defense }
    }

    /// Damage an attack of strength `attack` deals against this defender.
    pub fn damage_from(&self, attack: u32) -> (d: u32)
        ensures
            d == spec_damage(attack as int, self.defense as int),
    {
        if attack > self.defense {
            attack - self.defense
        } else {
            DAMAGE_FLOOR
        }
    }

    /// Resolve an incoming attack: health drops by the damage rule and is
    /// clamped to `[0, max_health]`; no other field changes.
    pub fn take_attack(&mut self, attack: u32)
        requires
            old(self).wf(),
        ensures
            final(self).health == old(self).spec_health_after_attack(attack as int),
            final(self).max_health == old(self).max_health,
            final(self).attack == old(self).attack,
            final(self).defense == old(self).defense,
            final(self).wf(),
    {
        let damage = self.damage_from(attack);
        if damage >= self.health {
            self.health = 0;
        } else {
            self.health = self.health - damage;
        }
    }

    /// True when this combatant has been defeated.
    pub fn is_dead(&self) -> (r: bool)
        ensures
            r == (self.health == 0),
    {
        self.health == 0
    }
}

} // verus!
