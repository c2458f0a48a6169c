use vstd::prelude::*;
use crate::actions::{Actions, MoveDir};
use crate::vec2::Vec2Milli;

verus! {

/// Player speed, in distance units per second.
pub const MOVE_SPEED: i64 = 150;

/// Longest tick the integrator accepts, in milliseconds (one day).
pub const MAX_TICK_MS: u64 = 86_400_000;

/// Largest displacement one tick can produce along an axis, in milliunits:
/// a full unit component over the longest tick.
pub const MAX_MOVE_STEP: i64 = 12_960_000_000_000;

/// Coordinate range the integrator accepts without risk of overflow.
pub const MOVE_COORD_LIMIT: i64 = 4_000_000_000_000_000_000;

/// The one player-controlled entity: a world position.
#[derive(Clone, Copy, Debug, PartialEq, Eq)]
pub struct Player {
    pub position: Vec2Milli,
}

/// The pointer position an outside input collaborator tracks for the
/// session, in viewport milliunits.
#[derive(Clone, Copy, Debug, PartialEq, Eq)]
pub struct MousePos(pub Vec2Milli);

/// Displacement along one axis over one tick, in milliunits, for a unit
/// vector component given in milli: component times speed times elapsed
/// seconds, truncated toward zero.
pub open spec fn spec_move_step(unit: int, dt_ms: int) -> int {
    if unit >= 0 {
        unit * (MOVE_SPEED as int) * dt_ms / 1000
    } else {
        -((-unit) * (MOVE_SPEED as int) * dt_ms / 1000)
    }
}

/// Where the player stands after one tick: unchanged without a movement
/// intent, else displaced by the intent's unit vector scaled by speed and
/// elapsed time.
pub open spec fn spec_moved_position(pos: Vec2Milli, movement: Option<MoveDir>, dt_ms: int) -> (
    int,
    int,
) {
    match movement {
        None => (pos.x as int, pos.y as int),
        Some(d) => {
            let u = d.spec_unit_milli();
            (
                pos.x + spec_move_step(u.x as int, dt_ms),
                pos.y + spec_move_step(u.y as int, dt_ms),
            )
        },
    }
}

proof fn lemma_step_mag(unit: int, dt_ms: int)
    requires
        0 <= unit <= 1000,
        0 <= dt_ms <= MAX_TICK_MS as int,
    ensures
        0 <= unit * (MOVE_SPEED as int) * dt_ms / 1000 <= MAX_MOVE_STEP as int,
{
    let num = unit * (MOVE_SPEED as int) * dt_ms;
    assert(0 <= num <= 12_960_000_000_000_000) by (nonlinear_arith)
        requires
            0 <= unit <= 1000,
            0 <= dt_ms <= 86_400_000,
            num == unit * 150 * dt_ms,
    ;
    vstd::arithmetic::div_mod::lemma_div_is_ordered(0, num, 1000);
    vstd::arithmetic::div_mod::lemma_div_is_ordered(num, 12_960_000_000_000_000, 1000);
}

/// One tick's displacement never exceeds [`MAX_MOVE_STEP`] on either axis.
pub proof fn lemma_moved_position_bound(pos: Vec2Milli, movement: Option<MoveDir>, dt_ms: int)
    requires
        0 <= dt_ms <= MAX_TICK_MS as int,
    ensures
        pos.x - MAX_MOVE_STEP <= spec_moved_position(pos, movement, dt_ms).0 <= pos.x
            + MAX_MOVE_STEP,
        pos.y - MAX_MOVE_STEP <= spec_moved_position(pos, movement, dt_ms).1 <= pos.y
            + MAX_MOVE_STEP,
{
    match movement {
        None => {},
        Some(d) => {
            let u = d.spec_unit_milli();
            assert(-1000 <= u.x <= 1000 && -1000 <= u.y <= 1000);
            if u.x >= 0 {
                lemma_step_mag(u.x as int, dt_ms);
            } else {
                lemma_step_mag(-(u.x as int), dt_ms);
            }
            if u.y >= 0 {
                lemma_step_mag(u.y as int, dt_ms);
            } else {
                lemma_step_mag(-(u.y as int), dt_ms);
            }
        },
    }
}

fn scaled_step(unit: i64, dt_ms: u64) -> (r: i64)
    requires
        -1000 <= unit <= 1000,
        dt_ms <= MAX_TICK_MS,
    ensures
        r as int == spec_move_step(unit as int, dt_ms as int),
        -MAX_MOVE_STEP <= r <= MAX_MOVE_STEP,
{
    let mag: u64 = if unit >= 0 {
        unit as u64
    } else {
        (-unit) as u64
    };
    proof {
        assert((mag * 150) * dt_ms <= 150000 * 86_400_000) by (nonlinear_arith)
            requires
                mag * 150 <= 150000,
                dt_ms <= 86_400_000,
        ;
    }
    let step: u64 = mag * 150 * dt_ms / 1000;
    if unit >= 0 {
        step as i64
    } else {
        -(step as i64)
    }
}

/// Apply the movement intent to the player's position for one tick. Without
/// an intent the position is untouched.
pub fn move_player(player: &mut Player, actions: &Actions, dt_ms: u64)
    requires
        dt_ms <= MAX_TICK_MS,
        -MOVE_COORD_LIMIT <= old(player).position.x <= MOVE_COORD_LIMIT,
        -MOVE_COORD_LIMIT <= old(player).position.y <= MOVE_COORD_LIMIT,
    ensures
        final(player).position.x as int == spec_moved_position(
            old(player).position,
            actions.player_movement,
            dt_ms as int,
        ).0,
        final(player).position.y as int == spec_moved_position(
            old(player).position,
            actions.player_movement,
            dt_ms as int,
        ).1,
{
    match &actions.player_movement {
        None => {},
        Some(d) => {
            let u = d.unit_milli();
            let dx = scaled_step(u.x, dt_ms);
            let dy = scaled_step(u.y, dt_ms);
            player.position.x = player.position.x + dx;
            player.position.y = player.position.y + dy;
        },
    }
}

} // verus!
