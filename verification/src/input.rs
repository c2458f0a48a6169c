use vstd::prelude::*;

verus! {

/// Per-tick state of one physical key or button: level-triggered `held` and
/// the two edge predicates for this tick.
#[derive(Clone, Copy, Debug, PartialEq, Eq, Default)]
pub struct KeyState {
    pub held: bool,
    pub just_pressed: bool,
    pub just_released: bool,
}

/// Read-only per-tick view of every physical key and button the simulation
/// listens to. Each directional control is bound to a letter key and an
/// arrow key; the grab toggle to the escape key; the fire control to the
/// left pointer button.
#[derive(Clone, Copy, Debug, PartialEq, Eq, Default)]
pub struct InputSnapshot {
    pub key_w: KeyState,
    pub key_arrow_up: KeyState,
    pub key_s: KeyState,
    pub key_arrow_down: KeyState,
    pub key_a: KeyState,
    pub key_arrow_left: KeyState,
    pub key_d: KeyState,
    pub key_arrow_right: KeyState,
    pub key_escape: KeyState,
    pub mouse_left: KeyState,
}

/// A logical control. Each directional control reads two physical keys; a
/// predicate of the control holds when it holds of either bound key.
#[derive(Clone, Copy, Debug, PartialEq, Eq)]
pub enum GameControl {
    Up,
    Down,
    Left,
    Right,
    MouseGrab,
    Trigger,
}

impl GameControl {
    /// The pair of key states this control reads; the second slot of a
    /// single-key control repeats the first so the disjunction is harmless.
    pub open spec fn spec_keys(self, input: InputSnapshot) -> (KeyState, KeyState) {
        match self {
            GameControl::Up => (input.key_w, input.key_arrow_up),
            GameControl::Down => (input.key_s, input.key_arrow_down),
            GameControl::Left => (input.key_a, input.key_arrow_left),
            GameControl::Right => (input.key_d, input.key_arrow_right),
            GameControl::MouseGrab => (input.key_escape, input.key_escape),
            GameControl::Trigger => (input.mouse_left, input.mouse_left),
        }
    }

    pub open spec fn spec_pressed(self, input: InputSnapshot) -> bool {
        self.spec_keys(input).0.held || self.spec_keys(input).1.held
    }

    pub open spec fn spec_just_pressed(self, input: InputSnapshot) -> bool {
        self.spec_keys(input).0.just_pressed || self.spec_keys(input).1.just_pressed
    }

    pub open spec fn spec_just_released(self, input: InputSnapshot) -> bool {
        self.spec_keys(input).0.just_released || self.spec_keys(input).1.just_released
    }

    /// The control is held: either bound key is held.
    pub fn pressed(&self, input: &InputSnapshot) -> (r: bool)
        ensures
            r == self.spec_pressed(*input),
    {
        match self {
            GameControl::Up => input.key_w.held || input.key_arrow_up.held,
            GameControl::Down => input.key_s.held || input.key_arrow_down.held,
            GameControl::Left => input.key_a.held || input.key_arrow_left.held,
            GameControl::Right => input.key_d.held || input.key_arrow_right.held,
            GameControl::MouseGrab => input.key_escape.held,
            GameControl::Trigger => input.mouse_left.held,
        }
    }

    /// The control saw a press edge this tick on either bound key.
    pub fn just_pressed(&self, input: &InputSnapshot) -> (r: bool)
        ensures
            r == self.spec_just_pressed(*input),
    {
        match self {
            GameControl::Up => input.key_w.just_pressed || input.key_arrow_up.just_pressed,
            GameControl::Down => input.key_s.just_pressed || input.key_arrow_down.just_pressed,
            GameControl::Left => input.key_a.just_pressed || input.key_arrow_left.just_pressed,
            GameControl::Right => input.key_d.just_pressed || input.key_arrow_right.just_pressed,
            GameControl::MouseGrab => input.key_escape.just_pressed,
            GameControl::Trigger => input.mouse_left.just_pressed,
        }
    }

    /// The control saw a release edge this tick on either bound key.
    pub fn just_released(&self, input: &InputSnapshot) -> (r: bool)
        ensures
            r == self.spec_just_released(*input),
    {
        match self {
            GameControl::Up => input.key_w.just_released || input.key_arrow_up.just_released,
            GameControl::Down => input.key_s.just_released || input.key_arrow_down.just_released,
            GameControl::Left => input.key_a.just_released || input.key_arrow_left.just_released,
            GameControl::Right => input.key_d.just_released || input.key_arrow_right.just_released,
            GameControl::MouseGrab => input.key_escape.just_released,
            GameControl::Trigger => input.mouse_left.just_released,
        }
    }
}

} // verus!
