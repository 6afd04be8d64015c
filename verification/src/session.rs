//! The per-tick wiring of the exploration systems.
//!
//! Systems run to completion once per tick in a fixed order: movement
//! first, then the encounter check against the committed position, then
//! the fade. Entering a mode applies its player-side effects in the same
//! tick as the switch, so no observer sees a half-updated hierarchy.

use vstd::prelude::*;

use crate::collision::Vec2i;
use crate::collision::all_in_world;
use crate::collision::in_play_area;
use crate::collision::in_world;
use crate::collision::spec_hits_any;
use crate::encounter::ENCOUNTER_MAX_MS;
use crate::encounter::ENCOUNTER_REARM_MIN_MS;
use crate::encounter::EncounterTracker;
use crate::encounter::player_encounter_checking;
use crate::mode::GameState;
use crate::mode::ModeManager;
use crate::movement::FacingDirection;
use crate::movement::MAX_SPEED;
use crate::movement::MAX_TICK_MS;
use crate::movement::MoveInput;
use crate::movement::player_movement;
use crate::movement::spec_move_outcome;
use crate::movement::spec_step;
use crate::player::Player;
use crate::player::PlayerVisibility;
use crate::player::hide_player;
use crate::player::show_player;

verus! {

/// Run one exploration tick: movement first, then the encounter check on
/// the committed position. Returns whether an encounter fired. A fired
/// encounter suspends the player, re-arms the countdown, and requests
/// the fade to combat; and one fires only on a tick with a committed
/// move inside an encounter zone — never while idle.
pub fn overworld_tick(
    player: &mut Player,
    pos: &mut Vec2i,
    facing: &mut FacingDirection,
    tracker: &mut EncounterTracker,
    mode: &mut ModeManager,
    input: MoveInput,
    dt_ms: u32,
    walls: &Vec<Vec2i>,
    zones: &Vec<Vec2i>,
) -> (fired: bool)
    requires
        in_play_area(*old(pos)),
        all_in_world(walls@),
        all_in_world(zones@),
        old(player).speed <= MAX_SPEED,
        dt_ms <= MAX_TICK_MS,
        old(tracker).wf(),
        old(mode).wf(),
        old(mode).current == GameState::Overworld,
    ensures
        final(tracker).wf(),
        final(mode).wf(),
        final(mode).current == GameState::Overworld,
        final(player).speed == old(player).speed,
        final(player).exp == old(player).exp,
        in_world(*final(pos)),
        !old(player).active ==> {
            &&& !fired
            &&& !final(player).just_moved
            &&& final(player).active == old(player).active
            &&& *final(pos) == *old(pos)
            &&& *final(facing) == *old(facing)
            &&& *final(tracker) == *old(tracker)
            &&& *final(mode) == *old(mode)
        },
        old(player).active ==> ({
            let mv = spec_move_outcome(
                *old(pos),
                *old(facing),
                input,
                spec_step(old(player).speed, dt_ms),
                walls@,
            );
            let in_zone = spec_hits_any(mv.0, zones@);
            &&& *final(pos) == mv.0
            &&& *final(facing) == mv.2
            &&& final(player).just_moved == mv.1
            &&& fired == (mv.1 && in_zone && dt_ms >= old(tracker).remaining_ms)
            &&& (fired ==> {
                &&& !final(player).active
                &&& ENCOUNTER_REARM_MIN_MS <= final(tracker).remaining_ms <= ENCOUNTER_MAX_MS
                &&& *final(mode) == old(mode).spec_request(GameState::Combat)
            })
            &&& (!fired ==> final(player).active && *final(mode) == *old(mode))
            &&& ((mv.1 && in_zone && !fired) ==> final(tracker).remaining_ms == old(
                tracker,
            ).remaining_ms - dt_ms)
            &&& (!(mv.1 && in_zone) ==> *final(tracker) == *old(tracker))
        }),
{
    player_movement(player, pos, facing, input, dt_ms, walls);
    player_encounter_checking(player, tracker, *pos, zones, dt_ms, mode)
}

/// Advance the in-flight fade by one tick and apply the entered mode's
/// player-side effects atomically with the switch: entering combat hides
/// the player sprite and every child visual; returning to the overworld
/// reactivates the player and restores visibility for the whole
/// hierarchy, all within this same tick.
pub fn fade_tick(
    mode: &mut ModeManager,
    player: &mut Player,
    vis: &mut PlayerVisibility,
    dt_ms: u32,
) -> (entered: Option<GameState>)
    requires
        old(mode).wf(),
    ensures
        final(mode).wf(),
        old(mode).pending is None ==> *final(mode) == *old(mode) && entered is None,
        old(mode).pending matches Some(t) ==> (if dt_ms >= old(mode).fade_remaining_ms {
            &&& final(mode).current == t
            &&& final(mode).pending is None
            &&& entered == Some(t)
        } else {
            &&& final(mode).current == old(mode).current
            &&& final(mode).pending == old(mode).pending
            &&& final(mode).fade_remaining_ms == old(mode).fade_remaining_ms - dt_ms
            &&& entered is None
        }),
        entered == Some(GameState::Overworld) ==> final(player).active && final(vis).all_visible(),
        entered == Some(GameState::Combat) ==> final(vis).all_hidden() && *final(player) == *old(
            player,
        ),
        (entered is None || entered == Some(GameState::StartMenu)) ==> *final(player) == *old(
            player,
        ) && *final(vis) == *old(vis),
        final(vis).children@.len() == old(vis).children@.len(),
        final(player).speed == old(player).speed,
        final(player).just_moved == old(player).just_moved,
        final(player).exp == old(player).exp,
{
    let entered = mode.tick_fade(dt_ms);
    match entered {
        Some(GameState::Overworld) => {
            show_player(player, vis);
        },
        Some(GameState::Combat) => {
            hide_player(vis);
        },
        _ => {},
    }
    entered
}

} // verus!
