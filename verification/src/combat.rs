//! The combat resolver.
//!
//! While the game is in combat mode, a sub-state machine alternates
//! between the player's turn and the enemies' turn. The player acts
//! first each round. Every resolved attack emits a `FightEvent` on the
//! bus. Combat ends the instant a terminal condition holds: all enemies
//! at zero health enters `Reward`, the player at zero health enters
//! `Defeat`, and no further turn runs past that instant.

use vstd::prelude::*;

use crate::events::EventQueue;
use crate::mode::GameState;
use crate::mode::ModeManager;
use crate::player::LEVEL_STAT_DELTA;
use crate::player::Player;
use crate::player::spec_give_exp;
use crate::stats::CombatStats;
use crate::stats::spec_damage;

verus! {

/// Turn sub-state, meaningful only while the game mode is combat.
#[derive(Clone, Copy, PartialEq, Eq, Structural, Debug)]
pub enum CombatState {
    PlayerTurn,
    EnemyTurn,
    Reward,
    Defeat,
}

/// One side of a resolved attack.
#[derive(Clone, Copy, PartialEq, Eq, Structural, Debug)]
pub enum Combatant {
    Player,
    Enemy(usize),
}

/// One-shot signal of a resolved attack, for presentation collaborators.
#[derive(Clone, Copy, PartialEq, Eq, Structural, Debug)]
pub struct FightEvent {
    pub source: Combatant,
    pub target: Combatant,
    pub damage: u32,
}

/// One running fight: the turn state, the enemies spawned for it, and
/// the experience granted when the player wins. The player's own stats
/// are referenced, never owned, so health carries across fights.
pub struct CombatEncounter {
    pub state: CombatState,
    pub enemies: Vec<CombatStats>,
    pub reward_exp: usize,
}

pub open spec fn spec_all_enemies_dead(enemies: Seq<CombatStats>) -> bool {
    forall|i: int| 0 <= i < enemies.len() ==> (#[trigger] enemies[i]).health == 0
}

/// The enemies' turn, resolved from enemy `i` onward: each enemy still
/// alive strikes the player in index order, a dead enemy's action is
/// skipped, and the round stops the instant the player's health reaches
/// zero. Yields the player's resulting stats and the events emitted.
pub open spec fn spec_enemy_round(player: CombatStats, enemies: Seq<CombatStats>, i: int) -> (
    CombatStats,
    Seq<FightEvent>,
)
    decreases enemies.len() - i,
{
    if i < 0 || i >= enemies.len() {
        (player, Seq::<FightEvent>::empty())
    } else if enemies[i].health == 0 {
        spec_enemy_round(player, enemies, i + 1)
    } else {
        let damage = spec_damage(enemies[i].attack as int, player.defense as int);
        let hit = CombatStats {
            health: player.spec_health_after_attack(enemies[i].attack as int) as u32,
            max_health: player.max_health,
            attack: player.attack,
            defense: player.defense,
        };
        let ev = FightEvent {
            source: Combatant::Enemy(i as usize),
            target: Combatant::Player,
            damage: damage as u32,
        };
        if hit.health == 0 {
            (hit, seq![ev])
        } else {
            let rest = spec_enemy_round(hit, enemies, i + 1);
            (rest.0, seq![ev] + rest.1)
        }
    }
}

impl CombatEncounter {
    /// Every enemy's stat block is well-formed.
    pub open spec fn wf(self) -> bool {
        forall|i: int| 0 <= i < self.enemies@.len() ==> (#[trigger] self.enemies@[i]).wf()
    }

    /// Enter combat with the enemies spawned for this fight and the
    /// experience they are worth. The player acts first.
    pub fn begin(enemies: Vec<CombatStats>, reward_exp: usize) -> (c: CombatEncounter)
        requires
            enemies@.len() >= 1,
            forall|i: int| 0 <= i < enemies@.len() ==> (#[trigger] enemies@[i]).wf(),
        ensures
            c.state == CombatState::PlayerTurn,
            c.enemies@ == enemies@,
            c.reward_exp == reward_exp,
            c.wf(),
    {
        CombatEncounter { state: CombatState::PlayerTurn, enemies, reward_exp }
    }

    /// Resolve the player's attack on the enemy at `target`: damage by
    /// the damage rule, clamped health, one event on the bus; then
    /// `Reward` the instant every enemy is dead, else the enemies' turn.
    pub fn player_attack(&mut self, player_stats: &CombatStats, target: usize, events: &mut EventQueue)
        requires
            old(self).state == CombatState::PlayerTurn,
            old(self).wf(),
            target < old(self).enemies@.len(),
            old(self).enemies@[target as int].health > 0,
        ensures
            final(self).wf(),
            final(self).reward_exp == old(self).reward_exp,
            ({
                let foe = old(self).enemies@[target as int];
                let foe_after = CombatStats {
                    health: foe.spec_health_after_attack(player_stats.attack as int) as u32,
                    max_health: foe.max_health,
                    attack: foe.attack,
                    defense: foe.defense,
                };
                &&& final(self).enemies@ == old(self).enemies@.update(target as int, foe_after)
                &&& final(events)@ == old(events)@.push(
                    FightEvent {
                        source: Combatant::Player,
                        target: Combatant::Enemy(target),
                        damage: spec_damage(player_stats.attack as int, foe.defense as int) as u32,
                    },
                )
                &&& final(self).state == (if spec_all_enemies_dead(final(self).enemies@) {
                    CombatState::Reward
                } else {
                    CombatState::EnemyTurn
                })
            }),
    {
        let mut foe = self.enemies[target];
        let damage = foe.damage_from(player_stats.attack);
        foe.take_attack(player_stats.attack);
        self.enemies[target] = foe;
        events.send(
            FightEvent { source: Combatant::Player, target: Combatant::Enemy(target), damage },
        );

        let n = self.enemies.len();
        let mut all_dead = true;
        let mut i: usize = 0;
        while i < n
            invariant
                i <= n,
                n == self.enemies@.len(),
                all_dead == (forall|j: int| 0 <= j < i ==> (#[trigger] self.enemies@[j]).health == 0),
            decreases n - i,
        {
            if self.enemies[i].health > 0 {
                all_dead = false;
            }
            i = i + 1;
        }
        self.state = if all_dead {
            CombatState::Reward
        } else {
            CombatState::EnemyTurn
        };
    }

    /// Resolve the whole enemies' turn as `spec_enemy_round` describes:
    /// living enemies strike in order, each strike emits an event, and
    /// the round stops the instant the player falls, entering `Defeat`;
    /// otherwise the turn passes back to the player.
    pub fn enemy_turn(&mut self, player_stats: &mut CombatStats, events: &mut EventQueue)
        requires
            old(self).state == CombatState::EnemyTurn,
            old(self).wf(),
            old(player_stats).wf(),
            old(player_stats).health > 0,
        ensures
            final(self).wf(),
            final(self).enemies@ == old(self).enemies@,
            final(self).reward_exp == old(self).reward_exp,
            final(player_stats).wf(),
            ({
                let round = spec_enemy_round(*old(player_stats), old(self).enemies@, 0);
                &&& *final(player_stats) == round.0
                &&& final(events)@ == old(events)@ + round.1
                &&& final(self).state == (if round.0.health == 0 {
                    CombatState::Defeat
                } else {
                    CombatState::PlayerTurn
                })
            }),
    {
        let ghost p0 = *player_stats;
        let ghost es = self.enemies@;
        let ghost mut emitted = Seq::<FightEvent>::empty();
        proof {
            assert(old(events)@ + emitted =~= old(events)@);
        }

        let n = self.enemies.len();
        let mut i: usize = 0;
        let mut defeated = false;
        while i < n && !defeated
            invariant
                i <= n,
                n == self.enemies@.len(),
                *self == *old(self),
                self.wf(),
                es == self.enemies@,
                player_stats.max_health == p0.max_health,
                player_stats.attack == p0.attack,
                player_stats.defense == p0.defense,
                player_stats.wf(),
                events@ == old(events)@ + emitted,
                !defeated ==> player_stats.health > 0,
                defeated ==> player_stats.health == 0,
                ({
                    let round = spec_enemy_round(p0, es, 0);
                    if defeated {
                        round.0 == *player_stats && round.1 == emitted
                    } else {
                        let rest = spec_enemy_round(*player_stats, es, i as int);
                        round.0 == rest.0 && round.1 == emitted + rest.1
                    }
                }),
            decreases n - i,
        {
            let ghost p_pre = *player_stats;
            let foe = self.enemies[i];
            if foe.health > 0 {
                let damage = player_stats.damage_from(foe.attack);
                player_stats.take_attack(foe.attack);
                let ev = FightEvent {
                    source: Combatant::Enemy(i),
                    target: Combatant::Player,
                    damage,
                };
                events.send(ev);
                proof {
                    let hit = CombatStats {
                        health: p_pre.spec_health_after_attack(foe.attack as int) as u32,
                        max_health: p_pre.max_health,
                        attack: p_pre.attack,
                        defense: p_pre.defense,
                    };
                    assert(*player_stats == hit);
                    assert(old(events)@ + emitted.push(ev) =~= (old(events)@ + emitted).push(ev));
                    if player_stats.health == 0 {
                        assert(emitted + seq![ev] =~= emitted.push(ev));
                    } else {
                        let rest = spec_enemy_round(*player_stats, es, i + 1);
                        assert(emitted + (seq![ev] + rest.1) =~= emitted.push(ev) + rest.1);
                    }
                    emitted = emitted.push(ev);
                }
                if player_stats.health == 0 {
                    defeated = true;
                }
            }
            i = i + 1;
        }

        proof {
            if !defeated {
                assert(spec_enemy_round(*player_stats, es, i as int) == (
                    *player_stats,
                    Seq::<FightEvent>::empty(),
                ));
                assert(emitted + Seq::<FightEvent>::empty() =~= emitted);
            }
        }
        self.state = if defeated {
            CombatState::Defeat
        } else {
            CombatState::PlayerTurn
        };
    }

    /// Grant this fight's experience to the victorious player: the
    /// progression ledger applies at most one level-up and keeps the
    /// residual.
    pub fn grant_reward(&self, player: &mut Player, stats: &mut CombatStats) -> (leveled: bool)
        requires
            self.state == CombatState::Reward,
            old(player).exp + self.reward_exp <= usize::MAX,
            old(stats).wf(),
            old(stats).max_health + LEVEL_STAT_DELTA <= u32::MAX,
            old(stats).attack + LEVEL_STAT_DELTA <= u32::MAX,
            old(stats).defense + LEVEL_STAT_DELTA <= u32::MAX,
        ensures
            (final(player).exp as int, *final(stats), leveled)
                == spec_give_exp(old(player).exp as int, *old(stats), self.reward_exp as int),
            final(player).speed == old(player).speed,
            final(player).active == old(player).active,
            final(player).just_moved == old(player).just_moved,
            final(stats).wf(),
    {
        player.give_exp(self.reward_exp, stats)
    }

    /// Leave combat, whatever ended it: the encounter and its enemies
    /// are dropped (despawned), and the fade back to the overworld is
    /// requested; the player's world position was never touched by
    /// combat, so exploration resumes exactly where it paused.
    pub fn exit_combat(self, mode: &mut ModeManager) -> (accepted: bool)
        requires
            old(mode).wf(),
        ensures
            *final(mode) == old(mode).spec_request(GameState::Overworld),
            accepted == (old(mode).pending is None && old(mode).current != GameState::Overworld),
            final(mode).wf(),
    {
        mode.request_transition(GameState::Overworld)
    }
}

} // verus!
