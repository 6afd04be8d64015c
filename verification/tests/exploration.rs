use rpg_core::CombatEncounter;
use rpg_core::CombatState;
use rpg_core::CombatStats;
use rpg_core::ENCOUNTER_MAX_MS;
use rpg_core::ENCOUNTER_REARM_MIN_MS;
use rpg_core::EncounterTracker;
use rpg_core::FacingDirection;
use rpg_core::GameState;
use rpg_core::ModeManager;
use rpg_core::MoveInput;
use rpg_core::Player;
use rpg_core::PlayerVisibility;
use rpg_core::Vec2i;
use rpg_core::boxes_overlap;
use rpg_core::fade_tick;
use rpg_core::hide_player;
use rpg_core::overworld_tick;
use rpg_core::player_movement;
use rpg_core::wall_collision_check;

fn held(up: bool, down: bool, left: bool, right: bool) -> MoveInput {
    MoveInput { up, down, left, right }
}

fn no_keys() -> MoveInput {
    held(false, false, false, false)
}

#[test]
fn touching_boxes_do_not_collide() {
    // Open-interval convention: centers exactly the sum of half-extents
    // apart merely touch, one subunit closer overlaps.
    let a = Vec2i { x: 0, y: 0 };
    let apart = Vec2i { x: 950, y: 0 };
    let closer = Vec2i { x: 949, y: 0 };
    assert!(!wall_collision_check(a, apart));
    assert!(wall_collision_check(a, closer));
}

#[test]
fn collision_probe_is_symmetric() {
    let a = Vec2i { x: 120, y: -340 };
    let b = Vec2i { x: 680, y: -100 };
    assert_eq!(boxes_overlap(a, 450, b, 500), boxes_overlap(b, 500, a, 450));
}

#[test]
fn walls_block_one_axis_and_the_player_slides() {
    // A wall one tile above blocks the vertical move; the horizontal
    // move still commits, so the player slides along the wall.
    let mut player = Player::new(3000);
    let mut pos = Vec2i { x: 0, y: 0 };
    let mut facing = FacingDirection::Down;
    let walls = vec![Vec2i { x: 0, y: 1000 }];

    player_movement(&mut player, &mut pos, &mut facing, held(true, false, false, true), 100, &walls);
    assert_eq!(pos, Vec2i { x: 300, y: 0 });
    assert!(player.just_moved);
    assert_eq!(facing, FacingDirection::Right);
}

#[test]
fn facing_follows_the_committed_axis_only() {
    let mut player = Player::new(3000);
    let mut pos = Vec2i { x: 0, y: 0 };
    let mut facing = FacingDirection::Down;
    let walls: Vec<Vec2i> = Vec::new();

    player_movement(&mut player, &mut pos, &mut facing, held(true, false, false, false), 100, &walls);
    assert_eq!(pos, Vec2i { x: 0, y: 300 });
    assert_eq!(facing, FacingDirection::Up);

    // Opposite keys cancel: no displacement, no move, facing kept.
    player_movement(&mut player, &mut pos, &mut facing, held(true, true, false, false), 100, &walls);
    assert_eq!(pos, Vec2i { x: 0, y: 300 });
    assert!(!player.just_moved);
    assert_eq!(facing, FacingDirection::Up);
}

#[test]
fn inactive_player_never_moves() {
    let mut player = Player::new(3000);
    player.active = false;
    let mut pos = Vec2i { x: 0, y: 0 };
    let mut facing = FacingDirection::Down;
    let walls: Vec<Vec2i> = Vec::new();

    player_movement(&mut player, &mut pos, &mut facing, held(true, false, false, true), 100, &walls);
    assert_eq!(pos, Vec2i { x: 0, y: 0 });
    assert!(!player.just_moved);
    assert_eq!(facing, FacingDirection::Down);
}

#[test]
fn moving_in_zone_counts_down_and_fires() {
    let mut player = Player::new(3000);
    let mut pos = Vec2i { x: 0, y: 0 };
    let mut facing = FacingDirection::Down;
    let mut tracker = EncounterTracker::with_duration(1500);
    let mut mode = ModeManager {
        current: GameState::Overworld,
        pending: None,
        fade_remaining_ms: 0,
    };
    let walls: Vec<Vec2i> = Vec::new();
    // A zone strip wide enough for both ticks' worth of travel.
    let zones: Vec<Vec2i> = (0..10).map(|i| Vec2i { x: 1000 * i, y: 0 }).collect();

    let first = overworld_tick(
        &mut player, &mut pos, &mut facing, &mut tracker, &mut mode,
        held(false, false, false, true), 1000, &walls, &zones,
    );
    assert!(!first);
    assert_eq!(tracker.remaining_ms, 500);
    assert_eq!(mode.pending, None);

    let second = overworld_tick(
        &mut player, &mut pos, &mut facing, &mut tracker, &mut mode,
        held(false, false, false, true), 1000, &walls, &zones,
    );
    assert!(second);
    assert!(!player.active);
    assert_eq!(mode.pending, Some(GameState::Combat));
    // The countdown re-armed within the documented re-arm range.
    assert!(ENCOUNTER_REARM_MIN_MS <= tracker.remaining_ms);
    assert!(tracker.remaining_ms <= ENCOUNTER_MAX_MS);
}

#[test]
fn standing_still_in_zone_never_fires() {
    // Ten seconds pass inside the zone with a countdown of at most six
    // seconds, but without movement nothing advances and nothing fires.
    let mut player = Player::new(3000);
    let mut pos = Vec2i { x: 0, y: 0 };
    let mut facing = FacingDirection::Down;
    let mut tracker = EncounterTracker::with_duration(1500);
    let mut mode = ModeManager {
        current: GameState::Overworld,
        pending: None,
        fade_remaining_ms: 0,
    };
    let walls: Vec<Vec2i> = Vec::new();
    let zones = vec![Vec2i { x: 0, y: 0 }];

    for _ in 0..10 {
        let fired = overworld_tick(
            &mut player, &mut pos, &mut facing, &mut tracker, &mut mode,
            no_keys(), 1000, &walls, &zones,
        );
        assert!(!fired);
    }
    assert_eq!(tracker.remaining_ms, 1500);
    assert_eq!(mode.current, GameState::Overworld);
    assert_eq!(mode.pending, None);
    assert!(player.active);
}

#[test]
fn moving_outside_zones_never_fires() {
    let mut player = Player::new(3000);
    let mut pos = Vec2i { x: 0, y: 0 };
    let mut facing = FacingDirection::Down;
    let mut tracker = EncounterTracker::with_duration(1000);
    let mut mode = ModeManager {
        current: GameState::Overworld,
        pending: None,
        fade_remaining_ms: 0,
    };
    let walls: Vec<Vec2i> = Vec::new();
    // The only zone lies far from the player's path.
    let zones = vec![Vec2i { x: 50_000, y: 50_000 }];

    for _ in 0..10 {
        let fired = overworld_tick(
            &mut player, &mut pos, &mut facing, &mut tracker, &mut mode,
            held(false, false, true, false), 1000, &walls, &zones,
        );
        assert!(!fired);
    }
    assert_eq!(tracker.remaining_ms, 1000);
    assert_eq!(mode.pending, None);
}

#[test]
fn fresh_tracker_is_armed_within_first_range() {
    for _ in 0..20 {
        let tracker = EncounterTracker::new();
        assert!(tracker.remaining_ms <= ENCOUNTER_MAX_MS);
    }
}

#[test]
fn repeated_transition_requests_are_no_ops() {
    let mut mode = ModeManager {
        current: GameState::Overworld,
        pending: None,
        fade_remaining_ms: 0,
    };
    // Requesting the mode already current changes nothing.
    assert!(!mode.request_transition(GameState::Overworld));
    assert_eq!(mode.pending, None);
    assert_eq!(mode.fade_remaining_ms, 0);

    // The first real request arms the fade; repeating it is a no-op.
    assert!(mode.request_transition(GameState::Combat));
    let armed = mode;
    assert!(!mode.request_transition(GameState::Combat));
    assert_eq!(mode, armed);
}

#[test]
fn mode_switches_only_when_the_fade_completes() {
    let mut mode = ModeManager::new();
    assert_eq!(mode.current, GameState::StartMenu);
    assert!(mode.request_transition(GameState::Overworld));
    assert_eq!(mode.current, GameState::StartMenu);

    assert_eq!(mode.tick_fade(400), None);
    assert_eq!(mode.current, GameState::StartMenu);
    assert_eq!(mode.fade_remaining_ms, 600);

    assert_eq!(mode.tick_fade(600), Some(GameState::Overworld));
    assert_eq!(mode.current, GameState::Overworld);
    assert_eq!(mode.pending, None);
}

#[test]
fn entering_combat_hides_the_whole_hierarchy() {
    let mut mode = ModeManager {
        current: GameState::Overworld,
        pending: None,
        fade_remaining_ms: 0,
    };
    let mut player = Player::new(3000);
    player.active = false;
    let mut vis = PlayerVisibility { root: true, children: vec![true, true, true] };
    assert!(mode.request_transition(GameState::Combat));

    let entered = fade_tick(&mut mode, &mut player, &mut vis, 1000);
    assert_eq!(entered, Some(GameState::Combat));
    assert!(!vis.root);
    assert!(vis.children.iter().all(|v| !v));
}

#[test]
fn exiting_combat_restores_player_in_the_same_tick() {
    let mut mode = ModeManager {
        current: GameState::Combat,
        pending: None,
        fade_remaining_ms: 0,
    };
    let mut player = Player::new(3000);
    player.active = false;
    let mut vis = PlayerVisibility { root: false, children: vec![false, false] };

    let fight = CombatEncounter {
        state: CombatState::Reward,
        enemies: vec![CombatStats::new(0, 4, 1, 0)],
        reward_exp: 10,
    };
    assert!(fight.exit_combat(&mut mode));
    assert_eq!(mode.pending, Some(GameState::Overworld));

    // One tick completes the fade and restores everything atomically.
    let entered = fade_tick(&mut mode, &mut player, &mut vis, 1000);
    assert_eq!(entered, Some(GameState::Overworld));
    assert_eq!(mode.current, GameState::Overworld);
    assert!(player.active);
    assert!(vis.root);
    assert!(vis.children.iter().all(|v| *v));
}

#[test]
fn hiding_is_total_over_the_children() {
    let mut vis = PlayerVisibility { root: true, children: vec![true, false, true] };
    hide_player(&mut vis);
    assert!(!vis.root);
    assert_eq!(vis.children, vec![false, false, false]);
}
