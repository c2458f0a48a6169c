use getting_over_him::actions::{set_movement_actions, Actions, MoveDir};
use getting_over_him::audio::control_shooting_sound;
use getting_over_him::input::{GameControl, InputSnapshot, KeyState};

fn idle() -> InputSnapshot {
    InputSnapshot::default()
}

fn held() -> KeyState {
    KeyState { held: true, just_pressed: false, just_released: false }
}

fn pressed_now() -> KeyState {
    KeyState { held: true, just_pressed: true, just_released: false }
}

fn released_now() -> KeyState {
    KeyState { held: false, just_pressed: false, just_released: true }
}

fn fresh() -> Actions {
    Actions::default()
}

#[test]
fn press_up_gives_unit_up() {
    let mut a = fresh();
    let mut input = idle();
    input.key_w = pressed_now();
    set_movement_actions(&mut a, &input);
    assert_eq!(a.player_movement, Some(MoveDir { x: 0, y: 1 }));
}

#[test]
fn arrow_key_binds_same_control() {
    let mut a = fresh();
    let mut input = idle();
    input.key_arrow_up = pressed_now();
    set_movement_actions(&mut a, &input);
    assert_eq!(a.player_movement, Some(MoveDir { x: 0, y: 1 }));
    assert!(GameControl::Up.pressed(&input));
    assert!(GameControl::Up.just_pressed(&input));
    assert!(!GameControl::Up.just_released(&input));
}

#[test]
fn stored_movement_is_none_or_unit() {
    // a handful of input combinations; each stored vector has squared
    // magnitude within tolerance of one (999698..=1000000 milli^2)
    let combos: Vec<InputSnapshot> = {
        let mut v = Vec::new();
        let mut up = idle();
        up.key_w = pressed_now();
        v.push(up);
        let mut up_right = idle();
        up_right.key_w = pressed_now();
        up_right.key_d = pressed_now();
        v.push(up_right);
        let mut down_left = idle();
        down_left.key_s = held();
        down_left.key_s.just_pressed = true;
        down_left.key_a = pressed_now();
        v.push(down_left);
        v.push(idle());
        v
    };
    for input in combos {
        let mut a = fresh();
        set_movement_actions(&mut a, &input);
        match a.player_movement {
            None => {}
            Some(d) => {
                let u = d.unit_milli();
                let sq = u.x * u.x + u.y * u.y;
                assert!((999_698..=1_000_000).contains(&sq), "sq magnitude {sq}");
            }
        }
    }
}

#[test]
fn diagonal_unit_components() {
    let mut a = fresh();
    let mut input = idle();
    input.key_w = pressed_now();
    input.key_d = pressed_now();
    set_movement_actions(&mut a, &input);
    let d = a.player_movement.expect("movement stored");
    assert_eq!(d, MoveDir { x: 1, y: 1 });
    let u = d.unit_milli();
    assert_eq!((u.x, u.y), (707, 707));
}

#[test]
fn release_down_while_up_held_resolves_up() {
    // both held, then down released while up remains held: axis = +1
    let mut a = fresh();
    let mut input = idle();
    input.key_w = pressed_now();
    input.key_s = pressed_now();
    set_movement_actions(&mut a, &input);
    // first press wins on simultaneous press: up is checked first
    assert_eq!(a.player_movement, Some(MoveDir { x: 0, y: 1 }));

    let mut input2 = idle();
    input2.key_w = held();
    input2.key_s = released_now();
    set_movement_actions(&mut a, &input2);
    assert_eq!(a.player_movement, Some(MoveDir { x: 0, y: 1 }));
}

#[test]
fn release_right_while_left_held_resolves_left() {
    let mut a = fresh();
    let mut input = idle();
    input.key_a = held();
    input.key_d = released_now();
    set_movement_actions(&mut a, &input);
    assert_eq!(a.player_movement, Some(MoveDir { x: -1, y: 0 }));
}

#[test]
fn release_with_nothing_held_zeroes_axis() {
    // up held alone, then released with nothing else: the movement block
    // still ran, both axes resolve to zero, and the stored value is kept
    let mut a = fresh();
    let mut input = idle();
    input.key_w = pressed_now();
    set_movement_actions(&mut a, &input);
    assert_eq!(a.player_movement, Some(MoveDir { x: 0, y: 1 }));

    let mut input2 = idle();
    input2.key_w = released_now();
    set_movement_actions(&mut a, &input2);
    assert_eq!(a.player_movement, Some(MoveDir { x: 0, y: 1 }));
}

#[test]
fn idle_input_clears_movement_same_tick() {
    let mut a = fresh();
    let mut input = idle();
    input.key_d = pressed_now();
    set_movement_actions(&mut a, &input);
    assert!(a.player_movement.is_some());

    set_movement_actions(&mut a, &idle());
    assert_eq!(a.player_movement, None);
}

#[test]
fn held_keys_carry_movement_across_ticks() {
    let mut a = fresh();
    let mut input = idle();
    input.key_w = pressed_now();
    set_movement_actions(&mut a, &input);

    let mut input2 = idle();
    input2.key_w = held();
    set_movement_actions(&mut a, &input2);
    assert_eq!(a.player_movement, Some(MoveDir { x: 0, y: 1 }));
}

#[test]
fn fire_tracks_held_with_no_memory() {
    let mut a = fresh();
    let mut input = idle();
    input.mouse_left = held();
    set_movement_actions(&mut a, &input);
    assert!(a.trigger_pressed);

    set_movement_actions(&mut a, &idle());
    assert!(!a.trigger_pressed);

    set_movement_actions(&mut a, &input);
    assert!(a.trigger_pressed);
}

#[test]
fn grab_flips_once_per_release_edge() {
    let mut a = fresh();
    assert!(!a.grabbed_mouse);

    // merely held: no change
    let mut held_input = idle();
    held_input.key_escape = held();
    set_movement_actions(&mut a, &held_input);
    assert!(!a.grabbed_mouse);

    // release edge: flips on
    let mut rel = idle();
    rel.key_escape = released_now();
    set_movement_actions(&mut a, &rel);
    assert!(a.grabbed_mouse);

    // idle: unchanged
    set_movement_actions(&mut a, &idle());
    assert!(a.grabbed_mouse);

    // second release edge: flips back off
    set_movement_actions(&mut a, &rel);
    assert!(!a.grabbed_mouse);
}

#[test]
fn audio_cues_follow_intent() {
    let a = Actions { player_movement: Some(MoveDir { x: 1, y: 0 }), grabbed_mouse: false, trigger_pressed: true };
    let cue = control_shooting_sound(&a);
    assert!(cue.shooting_playing);
    assert!(cue.walking_playing);

    let b = Actions::default();
    let cue = control_shooting_sound(&b);
    assert!(!cue.shooting_playing);
    assert!(!cue.walking_playing);
}
