use vstd::prelude::*;
use crate::input::{GameControl, InputSnapshot};
use crate::vec2::{sq_mag, Vec2Milli};

verus! {

/// A movement direction as a pair of axis signs, each in {-1, 0, 1} and not
/// both zero when well-formed. The direction denotes the unit vector
/// obtained by normalizing the pair (see [`MoveDir::unit_milli`]).
#[derive(Clone, Copy, Debug, PartialEq, Eq)]
pub struct MoveDir {
    pub x: i8,
    pub y: i8,
}

/// Fixed-point x component of the unit vector a sign pair normalizes to:
/// 1000 milli on a pure axis, 707 milli (a thousandth short of 1/sqrt(2))
/// on a diagonal.
pub open spec fn unit_component(a: int, other: int) -> int {
    if a == 0 {
        0
    } else if other == 0 {
        if a > 0 {
            1000
        } else {
            -1000
        }
    } else {
        if a > 0 {
            707
        } else {
            -707
        }
    }
}

impl MoveDir {
    /// Axis signs are in range and at least one is nonzero.
    pub open spec fn wf(self) -> bool {
        -1 <= self.x <= 1 && -1 <= self.y <= 1 && !(self.x == 0 && self.y == 0)
    }

    pub open spec fn spec_unit_milli(self) -> Vec2Milli {
        Vec2Milli {
            x: unit_component(self.x as int, self.y as int) as i64,
            y: unit_component(self.y as int, self.x as int) as i64,
        }
    }

    /// The unit vector this direction denotes, in milliunits.
    pub fn unit_milli(&self) -> (r: Vec2Milli)
        ensures
            r == self.spec_unit_milli(),
    {
        let ux: i64 = if self.x == 0 {
            0
        } else if self.y == 0 {
            if self.x > 0 {
                1000
            } else {
                -1000
            }
        } else {
            if self.x > 0 {
                707
            } else {
                -707
            }
        };
        let uy: i64 = if self.y == 0 {
            0
        } else if self.x == 0 {
            if self.y > 0 {
                1000
            } else {
                -1000
            }
        } else {
            if self.y > 0 {
                707
            } else {
                -707
            }
        };
        Vec2Milli { x: ux, y: uy }
    }
}

/// The resolved player input for one tick: the movement direction (or none),
/// the latched mouse-grab toggle, and the stateless fire flag.
#[derive(Clone, Copy, Debug, PartialEq, Eq)]
pub struct Actions {
    pub player_movement: Option<MoveDir>,
    pub grabbed_mouse: bool,
    pub trigger_pressed: bool,
}

impl Actions {
    /// Any stored movement direction is a well-formed sign pair.
    pub open spec fn wf(self) -> bool {
        match self.player_movement {
            Some(d) => d.wf(),
            None => true,
        }
    }
}

impl Default for Actions {
    /// The state before any input: no movement, grab off, fire off.
    fn default() -> (a: Actions)
        ensures
            a.player_movement is None,
            !a.grabbed_mouse,
            !a.trigger_pressed,
    {
        Actions { player_movement: None, grabbed_mouse: false, trigger_pressed: false }
    }
}

/// The movement block runs at all only while some directional control is
/// held or saw a release edge this tick.
pub open spec fn movement_active(input: InputSnapshot) -> bool {
    GameControl::Up.spec_just_released(input) || GameControl::Up.spec_pressed(input)
        || GameControl::Left.spec_just_released(input) || GameControl::Left.spec_pressed(input)
        || GameControl::Down.spec_just_released(input) || GameControl::Down.spec_pressed(input)
        || GameControl::Right.spec_just_released(input) || GameControl::Right.spec_pressed(input)
}

/// One axis of the resolver. A release edge on either side takes priority:
/// the axis then follows whichever side is still held, or rests at zero.
/// Without a release edge, a press edge sets the axis and otherwise the
/// previous tick's value carries over.
pub open spec fn spec_axis(
    rel_pos: bool,
    rel_neg: bool,
    held_pos: bool,
    held_neg: bool,
    jp_pos: bool,
    jp_neg: bool,
    prev: int,
) -> int {
    if rel_pos || rel_neg {
        if held_pos {
            1
        } else if held_neg {
            -1
        } else {
            0
        }
    } else if jp_pos {
        1
    } else if jp_neg {
        -1
    } else {
        prev
    }
}

pub open spec fn prev_axis_x(m: Option<MoveDir>) -> int {
    match m {
        Some(d) => d.x as int,
        None => 0,
    }
}

pub open spec fn prev_axis_y(m: Option<MoveDir>) -> int {
    match m {
        Some(d) => d.y as int,
        None => 0,
    }
}

/// The resolved vertical axis: up is positive.
pub open spec fn spec_axis_y(input: InputSnapshot, prev: Option<MoveDir>) -> int {
    spec_axis(
        GameControl::Up.spec_just_released(input),
        GameControl::Down.spec_just_released(input),
        GameControl::Up.spec_pressed(input),
        GameControl::Down.spec_pressed(input),
        GameControl::Up.spec_just_pressed(input),
        GameControl::Down.spec_just_pressed(input),
        prev_axis_y(prev),
    )
}

/// The resolved horizontal axis: right is positive.
pub open spec fn spec_axis_x(input: InputSnapshot, prev: Option<MoveDir>) -> int {
    spec_axis(
        GameControl::Right.spec_just_released(input),
        GameControl::Left.spec_just_released(input),
        GameControl::Right.spec_pressed(input),
        GameControl::Left.spec_pressed(input),
        GameControl::Right.spec_just_pressed(input),
        GameControl::Left.spec_just_pressed(input),
        prev_axis_x(prev),
    )
}

/// The stored movement after one tick: cleared outright while no directional
/// control is active; otherwise the resolved sign pair, except that a pair
/// that resolved to zero on both axes leaves the stored value untouched.
pub open spec fn spec_resolve_movement(input: InputSnapshot, prev: Option<MoveDir>) -> Option<
    MoveDir,
> {
    if movement_active(input) {
        let x = spec_axis_x(input, prev);
        let y = spec_axis_y(input, prev);
        if x == 0 && y == 0 {
            prev
        } else {
            Some(MoveDir { x: x as i8, y: y as i8 })
        }
    } else {
        None
    }
}

/// The whole intent after one tick: resolved movement, the grab toggle
/// flipped on a release edge of the grab control and otherwise kept, and
/// fire recomputed from scratch as "fire control held".
pub open spec fn spec_resolve(input: InputSnapshot, prev: Actions) -> Actions {
    Actions {
        player_movement: spec_resolve_movement(input, prev.player_movement),
        grabbed_mouse: if GameControl::MouseGrab.spec_just_released(input) {
            !prev.grabbed_mouse
        } else {
            prev.grabbed_mouse
        },
        trigger_pressed: GameControl::Trigger.spec_pressed(input),
    }
}

/// Resolve this tick's input into the stored intent.
pub fn set_movement_actions(actions: &mut Actions, input: &InputSnapshot)
    ensures
        *final(actions) == spec_resolve(*input, *old(actions)),
{
    if GameControl::Up.just_released(input) || GameControl::Up.pressed(input)
        || GameControl::Left.just_released(input) || GameControl::Left.pressed(input)
        || GameControl::Down.just_released(input) || GameControl::Down.pressed(input)
        || GameControl::Right.just_released(input) || GameControl::Right.pressed(input) {
        let prev_x: i8 = match actions.player_movement {
            Some(d) => d.x,
            None => 0,
        };
        let prev_y: i8 = match actions.player_movement {
            Some(d) => d.y,
            None => 0,
        };

        let y: i8 = if GameControl::Up.just_released(input) || GameControl::Down.just_released(
            input,
        ) {
            if GameControl::Up.pressed(input) {
                1
            } else if GameControl::Down.pressed(input) {
                -1
            } else {
                0
            }
        } else if GameControl::Up.just_pressed(input) {
            1
        } else if GameControl::Down.just_pressed(input) {
            -1
        } else {
            prev_y
        };

        let x: i8 = if GameControl::Right.just_released(input) || GameControl::Left.just_released(
            input,
        ) {
            if GameControl::Right.pressed(input) {
                1
            } else if GameControl::Left.pressed(input) {
                -1
            } else {
                0
            }
        } else if GameControl::Right.just_pressed(input) {
            1
        } else if GameControl::Left.just_pressed(input) {
            -1
        } else {
            prev_x
        };

        if x != 0 || y != 0 {
            actions.player_movement = Some(MoveDir { x, y });
        }
    } else {
        actions.player_movement = None;
    }

    if GameControl::MouseGrab.just_released(input) {
        actions.grabbed_mouse = !actions.grabbed_mouse;
    }

    actions.trigger_pressed = GameControl::Trigger.pressed(input);
}

/// The stored movement intent is always none or a well-formed sign pair, and
/// the unit vector a stored pair denotes has squared magnitude within 0.04%
/// of one (999698 to 1000000 squared milliunits, one being 1000000).
pub proof fn lemma_movement_intent_unit(input: InputSnapshot, prev: Actions)
    requires
        prev.wf(),
    ensures
        spec_resolve(input, prev).wf(),
        match spec_resolve(input, prev).player_movement {
            Some(d) => 999698 <= sq_mag(d.spec_unit_milli()) <= 1000000,
            None => true,
        },
{
    let m = spec_resolve(input, prev).player_movement;
    match m {
        Some(d) => {
            assert(d.wf());
            let u = d.spec_unit_milli();
            assert((u.x == 1000 && u.y == 0) || (u.x == -1000 && u.y == 0) || (u.x == 0 && u.y
                == 1000) || (u.x == 0 && u.y == -1000) || ((u.x == 707 || u.x == -707) && (u.y
                == 707 || u.y == -707)));
            assert(999698 <= u.x * u.x + u.y * u.y <= 1000000) by (nonlinear_arith)
                requires
                    (u.x == 1000 && u.y == 0) || (u.x == -1000 && u.y == 0) || (u.x == 0 && u.y
                        == 1000) || (u.x == 0 && u.y == -1000) || ((u.x == 707 || u.x == -707) && (
                    u.y == 707 || u.y == -707)),
            ;
        },
        None => {},
    }
}

/// On a release edge of one directional control of an axis, the resolved
/// axis follows the still-held control's sign, never the pre-release value:
/// stated here for the vertical axis.
pub proof fn lemma_release_keeps_held_sign_y(input: InputSnapshot, prev: Actions)
    requires
        GameControl::Up.spec_just_released(input) || GameControl::Down.spec_just_released(input),
    ensures
        GameControl::Up.spec_pressed(input) ==> (spec_resolve(input, prev).player_movement matches
        Some(d) && d.y == 1),
        !GameControl::Up.spec_pressed(input) && GameControl::Down.spec_pressed(input) ==> (
        spec_resolve(input, prev).player_movement matches Some(d) && d.y == -1),
{
}

/// The horizontal twin of [`lemma_release_keeps_held_sign_y`].
pub proof fn lemma_release_keeps_held_sign_x(input: InputSnapshot, prev: Actions)
    requires
        GameControl::Right.spec_just_released(input) || GameControl::Left.spec_just_released(
            input,
        ),
    ensures
        GameControl::Right.spec_pressed(input) ==> (spec_resolve(input, prev).player_movement
        matches Some(d) && d.x == 1),
        !GameControl::Right.spec_pressed(input) && GameControl::Left.spec_pressed(input) ==> (
        spec_resolve(input, prev).player_movement matches Some(d) && d.x == -1),
{
}

/// While no directional control is held and none saw a release edge, the
/// movement intent is cleared to none on that same tick, whatever was
/// carried before.
pub proof fn lemma_idle_clears_movement(input: InputSnapshot, prev: Actions)
    requires
        !GameControl::Up.spec_pressed(input),
        !GameControl::Down.spec_pressed(input),
        !GameControl::Left.spec_pressed(input),
        !GameControl::Right.spec_pressed(input),
        !GameControl::Up.spec_just_released(input),
        !GameControl::Down.spec_just_released(input),
        !GameControl::Left.spec_just_released(input),
        !GameControl::Right.spec_just_released(input),
    ensures
        spec_resolve(input, prev).player_movement is None,
{
}

/// The fire flag has no memory: two resolutions of the same input from any
/// two previous intents agree, and both equal "fire control held".
pub proof fn lemma_fire_stateless(input: InputSnapshot, prev1: Actions, prev2: Actions)
    ensures
        spec_resolve(input, prev1).trigger_pressed == GameControl::Trigger.spec_pressed(input),
        spec_resolve(input, prev1).trigger_pressed == spec_resolve(input, prev2).trigger_pressed,
{
}

/// The grab toggle flips exactly on a release edge of the grab control and
/// is untouched otherwise, held or idle.
pub proof fn lemma_grab_toggle(input: InputSnapshot, prev: Actions)
    ensures
        GameControl::MouseGrab.spec_just_released(input) ==> spec_resolve(input, prev).grabbed_mouse
            == !prev.grabbed_mouse,
        !GameControl::MouseGrab.spec_just_released(input) ==> spec_resolve(
            input,
            prev,
        ).grabbed_mouse == prev.grabbed_mouse,
{
}

} // verus!
