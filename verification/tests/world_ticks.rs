use getting_over_him::actions::MoveDir;
use getting_over_him::bullet::Bullet;
use getting_over_him::input::{InputSnapshot, KeyState};
use getting_over_him::vec2::Vec2Milli;
use getting_over_him::world::{TickCtx, World};

fn v(x: i64, y: i64) -> Vec2Milli {
    Vec2Milli { x, y }
}

fn ctx(dt_ms: u64, now_ms: u64) -> TickCtx {
    TickCtx { dt_ms, now_ms, mouse: Some(v(700_000, 300_000)), viewport_w: 800_000, viewport_h: 600_000 }
}

fn pressed_now() -> KeyState {
    KeyState { held: true, just_pressed: true, just_released: false }
}

fn held() -> KeyState {
    KeyState { held: true, just_pressed: false, just_released: false }
}

fn released_now() -> KeyState {
    KeyState { held: false, just_pressed: false, just_released: true }
}

#[test]
fn fresh_world_has_player_at_origin() {
    let w = World::new();
    assert_eq!(w.player.unwrap().position, v(0, 0));
    assert!(w.bullets.is_empty());
    assert!(w.zombies.is_empty());
    assert_eq!(w.actions.player_movement, None);
    assert_eq!(w.last_spawn_ms, 0);
}

#[test]
fn press_up_one_tick_moves_intent_up() {
    let mut w = World::new();
    let mut input = InputSnapshot::default();
    input.key_w = pressed_now();
    w.tick(&input, &ctx(16, 16));
    assert_eq!(w.actions.player_movement, Some(MoveDir { x: 0, y: 1 }));
    // 1000 * 150 * 16 / 1000 = 2400 milli upward
    assert_eq!(w.player.unwrap().position, v(0, 2_400));
}

#[test]
fn release_down_keeps_up_axis() {
    let mut w = World::new();
    let mut both = InputSnapshot::default();
    both.key_w = pressed_now();
    both.key_s = pressed_now();
    w.tick(&both, &ctx(16, 16));

    let mut release_down = InputSnapshot::default();
    release_down.key_w = held();
    release_down.key_s = released_now();
    w.tick(&release_down, &ctx(16, 32));
    let d = w.actions.player_movement.expect("movement kept");
    assert_eq!(d.y, 1);
}

#[test]
fn fire_three_ticks_first_bullet_ages_one_two_three() {
    let mut w = World::new();
    let mut firing = InputSnapshot::default();
    firing.mouse_left = held();
    let expected = [1u32, 2, 3];
    for (i, want) in expected.iter().enumerate() {
        let t = 16 * (i as u64 + 1);
        w.tick(&firing, &ctx(16, t));
        assert_eq!(w.bullets.len(), i + 1);
        assert_eq!(w.bullets[0].lifetime, *want);
        assert!(w.bullets[0].lifetime <= 50);
    }
}

#[test]
fn slow_bullet_deleted_on_next_evaluation() {
    let mut w = World::new();
    // squared speed 1000^2 = 1_000_000 < 80_000_000, age far from the limit
    w.bullets.push(Bullet { position: v(0, 0), velocity: v(1_000, 0), lifetime: 2 });
    w.tick(&InputSnapshot::default(), &ctx(16, 16));
    assert!(w.bullets.is_empty());
}

#[test]
fn tick_spawn_gate_and_pursuit() {
    let mut w = World::new();
    let idle = InputSnapshot::default();
    // half a second in: gate shut
    w.tick(&idle, &ctx(500, 500));
    assert!(w.zombies.is_empty());
    assert_eq!(w.last_spawn_ms, 0);
    // 1.1 seconds in: exactly one spawn, and it already pursued once
    w.tick(&idle, &ctx(600, 1_100));
    assert_eq!(w.zombies.len(), 1);
    assert_eq!(w.last_spawn_ms, 1_100);
    let z = &w.zombies[0];
    assert_eq!(z.health, 100);
    assert!((-400_000..400_000).contains(&z.position.x));
    // spawned at y = -100 units, then stepped half a unit toward the player
    assert!(z.position.y > -100_000 && z.position.y <= -99_500);
}

#[test]
fn tick_without_player_skips_silently() {
    let mut w = World::new();
    w.player = None;
    let mut input = InputSnapshot::default();
    input.key_w = pressed_now();
    input.mouse_left = held();
    w.tick(&input, &ctx(16, 16));
    assert!(w.player.is_none());
    assert!(w.bullets.is_empty());
    assert_eq!(w.actions.player_movement, Some(MoveDir { x: 0, y: 1 }));
}
