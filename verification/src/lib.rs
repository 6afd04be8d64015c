//! Core logic of a tile-based 2D role-playing game: collision probing,
//! player movement, encounter triggering, mode transitions, turn-based
//! combat, and experience-driven progression.

mod collision;
mod combat;
mod encounter;
mod events;
mod mode;
mod movement;
mod player;
mod session;
mod stats;

pub use collision::MAX_STEP;
pub use collision::PLAY_BOUND;
pub use collision::PLAYER_HALF;
pub use collision::TILE_HALF;
pub use collision::TILE_SIZE;
pub use collision::Vec2i;
pub use collision::WORLD_BOUND;
pub use collision::all_in_world;
pub use collision::boxes_overlap;
pub use collision::hits_any_tile;
pub use collision::in_play_area;
pub use collision::in_world;
pub use collision::lemma_overlap_symmetric;
pub use collision::spec_hits_any;
pub use collision::spec_overlap;
pub use collision::wall_collision_check;
pub use combat::Combatant;
pub use combat::CombatEncounter;
pub use combat::CombatState;
pub use combat::FightEvent;
pub use combat::spec_all_enemies_dead;
pub use combat::spec_enemy_round;
pub use encounter::ENCOUNTER_FIRST_MIN_MS;
pub use encounter::ENCOUNTER_MAX_MS;
pub use encounter::ENCOUNTER_REARM_MIN_MS;
pub use encounter::EncounterTracker;
pub use encounter::player_encounter_checking;
pub use encounter::spec_encounter_fires;
pub use events::EventQueue;
pub use mode::FADE_DURATION_MS;
pub use mode::GameState;
pub use mode::ModeManager;
pub use mode::lemma_request_idempotent;
pub use movement::FacingDirection;
pub use movement::MAX_SPEED;
pub use movement::MAX_TICK_MS;
pub use movement::MoveInput;
pub use movement::player_movement;
pub use movement::spec_move_outcome;
pub use movement::spec_step;
pub use movement::spec_x_delta;
pub use movement::spec_y_delta;
pub use player::EXP_LEVEL_THRESHOLD;
pub use player::LEVEL_HEAL;
pub use player::LEVEL_STAT_DELTA;
pub use player::Player;
pub use player::PlayerVisibility;
pub use player::hide_player;
pub use player::lemma_give_exp_split;
pub use player::show_player;
pub use player::spec_give_exp;
pub use player::spec_level_up;
pub use session::fade_tick;
pub use session::overworld_tick;
pub use stats::CombatStats;
pub use stats::DAMAGE_FLOOR;
pub use stats::spec_clamp;
pub use stats::spec_damage;
