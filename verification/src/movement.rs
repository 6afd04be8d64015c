//! The movement controller.
//!
//! Held directional keys produce a candidate displacement per axis,
//! scaled by the player's speed and the tick's elapsed time. Each axis
//! is resolved on its own against the wall set, so a blocked horizontal
//! move never blocks an unblocked vertical one (the player slides along
//! walls). `just_moved` and the facing direction record only moves that
//! were actually committed; an inactive player does not move at all and
//! has `just_moved` forced false.

use vstd::prelude::*;

use crate::collision::MAX_STEP;
use crate::collision::PLAYER_HALF;
use crate::collision::TILE_HALF;
use crate::collision::Vec2i;
use crate::collision::all_in_world;
use crate::collision::hits_any_tile;
use crate::collision::in_play_area;
use crate::collision::in_world;
use crate::collision::spec_hits_any;
use crate::player::Player;

verus! {

/// Largest speed the controller accepts, in milli-tiles per second.
pub const MAX_SPEED: u32 = 1_000_000;

/// Largest elapsed time one tick may report, in milliseconds.
pub const MAX_TICK_MS: u32 = 60_000;

/// Which way the player sprite faces; updated only by committed moves.
#[derive(Clone, Copy, PartialEq, Eq, Structural, Debug)]
pub enum FacingDirection {
    Up,
    Down,
    Left,
    Right,
}

/// The held directional keys of one tick.
#[derive(Clone, Copy, PartialEq, Eq, Structural, Debug)]
pub struct MoveInput {
    pub up: bool,
    pub down: bool,
    pub left: bool,
    pub right: bool,
}

/// Subunits travelled on one axis in one tick: speed (milli-tiles per
/// second) times elapsed milliseconds, scaled to subunits.
pub open spec fn spec_step(speed: u32, dt_ms: u32) -> int {
    (speed * dt_ms) / 1000
}

/// Signed vertical displacement: opposite held keys cancel.
pub open spec fn spec_y_delta(input: MoveInput, step: int) -> int {
    (if input.up {
        step
    } else {
        0
    }) - (if input.down {
        step
    } else {
        0
    })
}

/// Signed horizontal displacement: opposite held keys cancel.
pub open spec fn spec_x_delta(input: MoveInput, step: int) -> int {
    (if input.right {
        step
    } else {
        0
    }) - (if input.left {
        step
    } else {
        0
    })
}

/// Outcome of one movement tick for an active player: the committed
/// position, whether any axis actually moved, and the resulting facing.
/// The vertical axis is tried first from the old position; the
/// horizontal axis is tried from whatever the vertical try committed. A
/// candidate is committed only when no wall overlaps it, and only a
/// committed non-zero displacement sets `just_moved` and turns the
/// sprite (so a later horizontal move overrides the vertical facing).
pub open spec fn spec_move_outcome(
    pos: Vec2i,
    facing: FacingDirection,
    input: MoveInput,
    step: int,
    walls: Seq<Vec2i>,
) -> (Vec2i, bool, FacingDirection) {
    let y_delta = spec_y_delta(input, step);
    let y_target = Vec2i { x: pos.x, y: (pos.y + y_delta) as i64 };
    let y_open = !spec_hits_any(y_target, walls);
    let pos1 = if y_open {
        y_target
    } else {
        pos
    };
    let y_moved = y_open && y_delta != 0;
    let facing1 = if y_moved {
        if y_delta > 0 {
            FacingDirection::Up
        } else {
            FacingDirection::Down
        }
    } else {
        facing
    };
    let x_delta = spec_x_delta(input, step);
    let x_target = Vec2i { x: (pos1.x + x_delta) as i64, y: pos1.y };
    let x_open = !spec_hits_any(x_target, walls);
    let pos2 = if x_open {
        x_target
    } else {
        pos1
    };
    let x_moved = x_open && x_delta != 0;
    let facing2 = if x_moved {
        if x_delta > 0 {
            FacingDirection::Right
        } else {
            FacingDirection::Left
        }
    } else {
        facing1
    };
    (pos2, y_moved || x_moved, facing2)
}

/// Run one movement tick. An inactive player stays put with
/// `just_moved` false; an active player moves axis by axis as
/// `spec_move_outcome` describes. Nothing else about the player changes.
pub fn player_movement(
    player: &mut Player,
    pos: &mut Vec2i,
    facing: &mut FacingDirection,
    input: MoveInput,
    dt_ms: u32,
    walls: &Vec<Vec2i>,
)
    requires
        in_play_area(*old(pos)),
        all_in_world(walls@),
        old(player).speed <= MAX_SPEED,
        dt_ms <= MAX_TICK_MS,
    ensures
        final(player).speed == old(player).speed,
        final(player).active == old(player).active,
        final(player).exp == old(player).exp,
        !old(player).active ==> {
            &&& !final(player).just_moved
            &&& *final(pos) == *old(pos)
            &&& *final(facing) == *old(facing)
        },
        old(player).active ==> {
            let outcome = spec_move_outcome(
                *old(pos),
                *old(facing),
                input,
                spec_step(old(player).speed, dt_ms),
                walls@,
            );
            &&& *final(pos) == outcome.0
            &&& final(player).just_moved == outcome.1
            &&& *final(facing) == outcome.2
        },
        in_world(*final(pos)),
{
    player.just_moved = false;

    if !player.active {
        return ;
    }

    proof {
        vstd::arithmetic::mul::lemma_mul_upper_bound(
            player.speed as int,
            MAX_SPEED as int,
            dt_ms as int,
            MAX_TICK_MS as int,
        );
        vstd::arithmetic::div_mod::lemma_div_is_ordered(
            (player.speed as int) * (dt_ms as int),
            (MAX_SPEED as int) * (MAX_TICK_MS as int),
            1000,
        );
    }
    let step_wide: u64 = (player.speed as u64) * (dt_ms as u64) / 1000;
    let step: i64 = step_wide as i64;

    let mut y_delta: i64 = 0;
    if input.up {
        y_delta = y_delta + step;
    }
    if input.down {
        y_delta = y_delta - step;
    }
    let y_target = Vec2i { x: pos.x, y: pos.y + y_delta };
    if !hits_any_tile(y_target, walls) {
        if y_delta != 0 {
            player.just_moved = true;
            if y_delta > 0 {
                *facing = FacingDirection::Up;
            } else {
                *facing = FacingDirection::Down;
            }
        }
        *pos = y_target;
    }

    let mut x_delta: i64 = 0;
    if input.right {
        x_delta = x_delta + step;
    }
    if input.left {
        x_delta = x_delta - step;
    }
    let x_target = Vec2i { x: pos.x + x_delta, y: pos.y };
    if !hits_any_tile(x_target, walls) {
        if x_delta != 0 {
            player.just_moved = true;
            if x_delta > 0 {
                *facing = FacingDirection::Right;
            } else {
                *facing = FacingDirection::Left;
            }
        }
        *pos = x_target;
    }
}

} // verus!
