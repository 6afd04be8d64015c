//! The spatial collision probe.
//!
//! World positions are integer subunits: one map tile is `TILE_SIZE`
//! subunits on a side. Boxes are axis-aligned squares given by a center
//! and a half-extent. Overlap is strict on both axes (the open-interval
//! convention): boxes that merely touch at an edge do not collide, and
//! the same convention serves both wall blocking and encounter zones.
//! The player probes with a box 90% of a tile wide, against full-size
//! tile boxes, so grazing a tile edge never counts as a hit.

use vstd::prelude::*;

verus! {

/// Subunits per map tile side.
pub const TILE_SIZE: i64 = 1000;

/// Half-extent of a full tile box.
pub const TILE_HALF: i64 = 500;

/// Half-extent of the player's probe box: 90% of a tile.
pub const PLAYER_HALF: i64 = 450;

/// All coordinates the world may hold lie within this bound.
pub const WORLD_BOUND: i64 = 1_000_000_000_000;

/// Largest displacement a single tick may produce.
pub const MAX_STEP: i64 = 100_000_000;

/// Coordinates this far inside the world bound leave room for one tick's
/// displacement.
pub const PLAY_BOUND: i64 = WORLD_BOUND - MAX_STEP;

/// A world position in integer subunits.
#[derive(Clone, Copy, PartialEq, Eq, Structural, Debug)]
pub struct Vec2i {
    pub x: i64,
    pub y: i64,
}

pub open spec fn spec_abs(v: int) -> int {
    if v < 0 {
        -v
    } else {
        v
    }
}

pub open spec fn in_world(p: Vec2i) -> bool {
    &&& -WORLD_BOUND <= p.x <= WORLD_BOUND
    &&& -WORLD_BOUND <= p.y <= WORLD_BOUND
}

pub open spec fn in_play_area(p: Vec2i) -> bool {
    &&& -PLAY_BOUND <= p.x <= PLAY_BOUND
    &&& -PLAY_BOUND <= p.y <= PLAY_BOUND
}

pub open spec fn all_in_world(tiles: Seq<Vec2i>) -> bool {
    forall|i: int| 0 <= i < tiles.len() ==> in_world(#[trigger] tiles[i])
}

/// Two axis-aligned square boxes (center plus half-extent) overlap when
/// their centers are strictly closer than the sum of the half-extents on
/// both axes. Symmetric in its two boxes; touching edges do not overlap.
pub open spec fn spec_overlap(a: Vec2i, a_half: int, b: Vec2i, b_half: int) -> bool {
    &&& spec_abs(a.x - b.x) < a_half + b_half
    &&& spec_abs(a.y - b.y) < a_half + b_half
}

/// Some tile of `tiles` overlaps the player probe box at `target`.
pub open spec fn spec_hits_any(target: Vec2i, tiles: Seq<Vec2i>) -> bool {
    exists|i: int|
        0 <= i < tiles.len() && spec_overlap(target, PLAYER_HALF as int, #[trigger] tiles[i], TILE_HALF as int)
}

/// The probe is symmetric: swapping the two boxes never changes the
/// answer.
pub proof fn lemma_overlap_symmetric(a: Vec2i, a_half: int, b: Vec2i, b_half: int)
    ensures
        spec_overlap(a, a_half, b, b_half) == spec_overlap(b, b_half, a, a_half),
{
}

/// Exact overlap test for two square boxes.
pub fn boxes_overlap(a: Vec2i, a_half: i64, b: Vec2i, b_half: i64) -> (r: bool)
    requires
        in_world(a),
        in_world(b),
        0 <= a_half <= TILE_SIZE,
        0 <= b_half <= TILE_SIZE,
    ensures
        r == spec_overlap(a, a_half as int, b, b_half as int),
{
    let dx = if a.x >= b.x {
        a.x - b.x
    } else {
        b.x - a.x
    };
    let dy = if a.y >= b.y {
        a.y - b.y
    } else {
        b.y - a.y
    };
    dx < a_half + b_half && dy < a_half + b_half
}

/// Would the player's (slightly shrunk) box at `target_player_pos`
/// overlap the full-size tile box at `tile_pos`?
pub fn wall_collision_check(target_player_pos: Vec2i, tile_pos: Vec2i) -> (r: bool)
    requires
        in_world(target_player_pos),
        in_world(tile_pos),
    ensures
        r == spec_overlap(target_player_pos, PLAYER_HALF as int, tile_pos, TILE_HALF as int),
{
    boxes_overlap(target_player_pos, PLAYER_HALF, tile_pos, TILE_HALF)
}

/// Does the player probe box at `target` hit any tile of `tiles`?
pub fn hits_any_tile(target: Vec2i, tiles: &Vec<Vec2i>) -> (r: bool)
    requires
        in_world(target),
        all_in_world(tiles@),
    ensures
        r == spec_hits_any(target, tiles@),
{
    let n = tiles.len();
    let mut i: usize = 0;
    while i < n
        invariant
            i <= n,
            n == tiles@.len(),
            in_world(target),
            all_in_world(tiles@),
            forall|j: int|
                0 <= j < i ==> !spec_overlap(
                    target,
                    PLAYER_HALF as int,
                    #[trigger] tiles@[j],
                    TILE_HALF as int,
                ),
        decreases n - i,
    {
        if wall_collision_check(target, tiles[i]) {
            return true;
        }
        i = i + 1;
    }
    false
}

} // verus!
