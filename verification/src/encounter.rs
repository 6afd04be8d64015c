//! The encounter trigger.
//!
//! While the player is exploring, standing in an encounter zone and
//! actually moving advances a countdown; when it runs out, the player is
//! suspended, the countdown is re-armed with a fresh random duration,
//! and a fade to combat is requested. On ticks where the player did not
//! move, or stands outside every zone, the countdown does not advance
//! and nothing can fire — no phantom encounters while idle.

use vstd::prelude::*;

use rand::Rng;

use crate::collision::Vec2i;
use crate::collision::all_in_world;
use crate::collision::hits_any_tile;
use crate::collision::in_world;
use crate::collision::spec_hits_any;
use crate::mode::GameState;
use crate::mode::ModeManager;
use crate::player::Player;

verus! {

/// Longest duration the countdown is ever armed with, in milliseconds.
pub const ENCOUNTER_MAX_MS: u32 = 6000;

/// Shortest re-arm duration after a fired encounter. The very first arm
/// at spawn draws from zero instead — the observed two-phase behavior is
/// kept as documented.
pub const ENCOUNTER_REARM_MIN_MS: u32 = 1000;

/// Shortest duration of the first arm, at player spawn.
pub const ENCOUNTER_FIRST_MIN_MS: u32 = 0;

/// Counts down to the next encounter while the player moves inside a
/// zone; re-armed with a fresh random duration on every firing, never
/// destroyed.
#[derive(Clone, Copy, PartialEq, Eq, Structural, Debug)]
pub struct EncounterTracker {
    /// Time left until the encounter fires, in milliseconds.
    pub remaining_ms: u32,
}

/// Relies on `rand::Rng::gen_range` over an inclusive integer range: the
/// draw is uniform over `lo..=hi` and always falls within those bounds
/// (it panics only on an empty range, which the precondition excludes).
#[verifier::external_body]
fn draw_duration_ms(lo: u32, hi: u32) -> (r: u32)
    requires
        lo <= hi,
    ensures
        lo <= r <= hi,
{
    rand::thread_rng().gen_range(lo..=hi)
}

/// The trigger fires exactly when the player moved this tick, stands in
/// a zone, and the elapsed time exhausts the countdown.
pub open spec fn spec_encounter_fires(
    player: Player,
    tracker: EncounterTracker,
    in_zone: bool,
    dt_ms: u32,
) -> bool {
    player.just_moved && in_zone && dt_ms >= tracker.remaining_ms
}

impl EncounterTracker {
    pub open spec fn wf(self) -> bool {
        self.remaining_ms <= ENCOUNTER_MAX_MS
    }

    /// Arm the tracker at player spawn with a random first duration.
    pub fn new() -> (t: EncounterTracker)
        ensures
            t.wf(),
    {
        EncounterTracker { remaining_ms: draw_duration_ms(ENCOUNTER_FIRST_MIN_MS, ENCOUNTER_MAX_MS) }
    }

    /// Arm the tracker with a chosen duration: the injectable source for
    /// deterministic runs.
    pub fn with_duration(ms: u32) -> (t: EncounterTracker)
        requires
            ms <= ENCOUNTER_MAX_MS,
        ensures
            t.remaining_ms == ms,
            t.wf(),
    {
        EncounterTracker { remaining_ms: ms }
    }
}

/// Run the encounter check of one exploration tick. Fires exactly when
/// `spec_encounter_fires` says so over whether the player's box overlaps
/// an encounter zone; a fired encounter suspends the player, re-arms the
/// countdown at random within the re-arm range, and requests the fade to
/// combat. On a tick without a committed move inside a zone, nothing —
/// player, tracker or mode — changes.
pub fn player_encounter_checking(
    player: &mut Player,
    tracker: &mut EncounterTracker,
    pos: Vec2i,
    zones: &Vec<Vec2i>,
    dt_ms: u32,
    mode: &mut ModeManager,
) -> (fired: bool)
    requires
        in_world(pos),
        all_in_world(zones@),
        old(tracker).wf(),
        old(mode).wf(),
        old(mode).current == GameState::Overworld,
    ensures
        fired == spec_encounter_fires(
            *old(player),
            *old(tracker),
            spec_hits_any(pos, zones@),
            dt_ms,
        ),
        !(old(player).just_moved && spec_hits_any(pos, zones@)) ==> {
            &&& *final(player) == *old(player)
            &&& *final(tracker) == *old(tracker)
            &&& *final(mode) == *old(mode)
        },
        (old(player).just_moved && spec_hits_any(pos, zones@) && !fired) ==> {
            &&& *final(player) == *old(player)
            &&& final(tracker).remaining_ms == old(tracker).remaining_ms - dt_ms
            &&& *final(mode) == *old(mode)
        },
        fired ==> {
            &&& !final(player).active
            &&& final(player).speed == old(player).speed
            &&& final(player).just_moved == old(player).just_moved
            &&& final(player).exp == old(player).exp
            &&& ENCOUNTER_REARM_MIN_MS <= final(tracker).remaining_ms <= ENCOUNTER_MAX_MS
            &&& *final(mode) == old(mode).spec_request(GameState::Combat)
        },
        final(tracker).wf(),
        final(mode).wf(),
        final(mode).current == old(mode).current,
{
    let in_zone = hits_any_tile(pos, zones);
    if player.just_moved && in_zone {
        if dt_ms >= tracker.remaining_ms {
            player.active = false;
            tracker.remaining_ms = draw_duration_ms(ENCOUNTER_REARM_MIN_MS, ENCOUNTER_MAX_MS);
            mode.request_transition(GameState::Combat);
            true
        } else {
            tracker.remaining_ms = tracker.remaining_ms - dt_ms;
            false
        }
    } else {
        false
    }
}

} // verus!
