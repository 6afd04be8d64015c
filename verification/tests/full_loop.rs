use rpg_core::CombatEncounter;
use rpg_core::CombatState;
use rpg_core::CombatStats;
use rpg_core::EncounterTracker;
use rpg_core::EventQueue;
use rpg_core::FacingDirection;
use rpg_core::GameState;
use rpg_core::ModeManager;
use rpg_core::MoveInput;
use rpg_core::Player;
use rpg_core::PlayerVisibility;
use rpg_core::Vec2i;
use rpg_core::fade_tick;
use rpg_core::overworld_tick;

#[test]
fn menu_to_combat_and_back() {
    let mut player = Player::new(3000);
    let mut stats = CombatStats::new(10, 10, 2, 1);
    let mut pos = Vec2i { x: 0, y: 0 };
    let mut facing = FacingDirection::Down;
    let mut tracker = EncounterTracker::with_duration(300);
    let mut vis = PlayerVisibility { root: true, children: vec![true, true] };
    let mut mode = ModeManager::new();
    let mut events = EventQueue::new();
    let walls: Vec<Vec2i> = Vec::new();
    let zones: Vec<Vec2i> = (0..10).map(|i| Vec2i { x: 1000 * i, y: 0 }).collect();
    let held_right = MoveInput { up: false, down: false, left: false, right: true };

    // Leave the start menu through a full fade.
    assert!(mode.request_transition(GameState::Overworld));
    assert_eq!(fade_tick(&mut mode, &mut player, &mut vis, 400), None);
    assert_eq!(
        fade_tick(&mut mode, &mut player, &mut vis, 600),
        Some(GameState::Overworld)
    );

    // One moving tick inside the zone exhausts the 300 ms countdown.
    let fired = overworld_tick(
        &mut player, &mut pos, &mut facing, &mut tracker, &mut mode,
        held_right, 1000, &walls, &zones,
    );
    assert!(fired);
    assert!(!player.active);
    assert_eq!(mode.current, GameState::Overworld);
    assert_eq!(mode.pending, Some(GameState::Combat));

    // The fade completes; entering combat hides the whole hierarchy.
    let entered = fade_tick(&mut mode, &mut player, &mut vis, 1000);
    assert_eq!(entered, Some(GameState::Combat));
    assert!(!vis.root);

    // The fight of scenario one, driven to its reward.
    let mut fight = CombatEncounter::begin(vec![CombatStats::new(4, 4, 1, 0)], 10);
    fight.player_attack(&stats, 0, &mut events);
    fight.enemy_turn(&mut stats, &mut events);
    fight.player_attack(&stats, 0, &mut events);
    assert_eq!(fight.state, CombatState::Reward);
    assert!(!fight.grant_reward(&mut player, &mut stats));
    assert_eq!(player.exp, 10);
    assert!(fight.exit_combat(&mut mode));

    // Exiting combat restores the player atomically with the switch.
    let entered = fade_tick(&mut mode, &mut player, &mut vis, 1000);
    assert_eq!(entered, Some(GameState::Overworld));
    assert!(player.active);
    assert!(vis.root);
    assert!(vis.children.iter().all(|v| *v));
    // Health carried out of the fight; position never moved during it.
    assert_eq!(stats.health, 10);
    assert_eq!(pos, Vec2i { x: 3000, y: 0 });
}

#[test]
fn inactive_player_tick_changes_nothing() {
    let mut player = Player::new(3000);
    player.active = false;
    let mut pos = Vec2i { x: 0, y: 0 };
    let mut facing = FacingDirection::Down;
    let mut tracker = EncounterTracker::with_duration(100);
    let mut mode = ModeManager {
        current: GameState::Overworld,
        pending: None,
        fade_remaining_ms: 0,
    };
    let walls: Vec<Vec2i> = Vec::new();
    let zones = vec![Vec2i { x: 0, y: 0 }];
    let held = MoveInput { up: true, down: false, left: false, right: true };

    let fired = overworld_tick(
        &mut player, &mut pos, &mut facing, &mut tracker, &mut mode,
        held, 1000, &walls, &zones,
    );
    assert!(!fired);
    assert_eq!(pos, Vec2i { x: 0, y: 0 });
    assert_eq!(tracker.remaining_ms, 100);
    assert_eq!(mode.pending, None);
}

#[test]
fn boxed_in_player_cannot_move_at_all() {
    let mut player = Player::new(3000);
    let mut pos = Vec2i { x: 0, y: 0 };
    let mut facing = FacingDirection::Down;
    // Walls on all four sides, adjacent tiles.
    let walls = vec![
        Vec2i { x: 0, y: 1000 },
        Vec2i { x: 0, y: -1000 },
        Vec2i { x: 1000, y: 0 },
        Vec2i { x: -1000, y: 0 },
    ];
    let held = MoveInput { up: true, down: false, left: false, right: true };

    rpg_core::player_movement(&mut player, &mut pos, &mut facing, held, 100, &walls);
    assert_eq!(pos, Vec2i { x: 0, y: 0 });
    assert!(!player.just_moved);
    assert_eq!(facing, FacingDirection::Down);
}

#[test]
fn enemy_strikes_accumulate_within_one_round() {
    // Two living enemies both strike in index order within one turn.
    let mut player_stats = CombatStats::new(10, 10, 2, 1);
    let mut fight = CombatEncounter {
        state: CombatState::EnemyTurn,
        enemies: vec![CombatStats::new(4, 4, 3, 0), CombatStats::new(4, 4, 4, 0)],
        reward_exp: 0,
    };
    let mut events = EventQueue::new();

    fight.enemy_turn(&mut player_stats, &mut events);
    // Damage 3 - 1 = 2, then 4 - 1 = 3.
    assert_eq!(player_stats.health, 5);
    assert_eq!(fight.state, CombatState::PlayerTurn);
    assert_eq!(events.len(), 2);
}
