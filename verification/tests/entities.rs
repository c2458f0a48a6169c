use getting_over_him::actions::{Actions, MoveDir};
use getting_over_him::bullet::{
    bullet_current_system, bullet_delete_system, launch_velocity, shooting_system, Bullet,
};
use getting_over_him::player::{move_player, MousePos, Player};
use getting_over_him::vec2::{isqrt, Vec2Milli};
use getting_over_him::zombie::{zombie_despawn, zombie_nav, zombie_spawner, Zombie};

fn v(x: i64, y: i64) -> Vec2Milli {
    Vec2Milli { x, y }
}

#[test]
fn isqrt_exact_values() {
    assert_eq!(isqrt(0), 0);
    assert_eq!(isqrt(1), 1);
    assert_eq!(isqrt(2), 1);
    assert_eq!(isqrt(3), 1);
    assert_eq!(isqrt(4), 2);
    assert_eq!(isqrt(2_500_000_000), 50_000);
    assert_eq!(isqrt(u128::from(u64::MAX)) , 0xffff_ffff);
    assert_eq!(isqrt(u128::MAX), u128::from(u64::MAX));
}

#[test]
fn mouse_pos_carries_the_pointer() {
    let mp = MousePos(v(5, 6));
    assert_eq!(mp.0, v(5, 6));
}

#[test]
fn move_player_scales_by_speed_and_time() {
    // a full second straight up at 150 units/s: +150 units = +150_000 milli
    let mut p = Player { position: v(0, 0) };
    let a = Actions {
        player_movement: Some(MoveDir { x: 0, y: 1 }),
        grabbed_mouse: false,
        trigger_pressed: false,
    };
    move_player(&mut p, &a, 1000);
    assert_eq!(p.position, v(0, 150_000));
}

#[test]
fn move_player_diagonal_sixteen_ms() {
    // 707 * 150 * 16 / 1000 = 1696 milli on each axis
    let mut p = Player { position: v(10_000, -5_000) };
    let a = Actions {
        player_movement: Some(MoveDir { x: 1, y: 1 }),
        grabbed_mouse: false,
        trigger_pressed: false,
    };
    move_player(&mut p, &a, 16);
    assert_eq!(p.position, v(11_696, -3_304));
}

#[test]
fn move_player_without_intent_stays() {
    let mut p = Player { position: v(7, 8) };
    let a = Actions::default();
    move_player(&mut p, &a, 1000);
    assert_eq!(p.position, v(7, 8));
}

#[test]
fn launch_velocity_straight_right() {
    // pointer 300 units right of the viewport center, player at the origin:
    // world aim point (300000, 0), heading vector (300000, 0), times five
    let velocity = launch_velocity(v(700_000, 300_000), 800_000, 600_000, v(0, 0));
    assert_eq!(velocity, v(1_500_000, 0));
}

#[test]
fn launch_velocity_flips_when_pointer_left() {
    // pointer 300 units left of center: the squared-x component is positive
    // by construction and the sign flip restores the leftward direction
    let velocity = launch_velocity(v(100_000, 300_000), 800_000, 600_000, v(0, 0));
    assert_eq!(velocity, v(-1_500_000, 0));
}

#[test]
fn launch_velocity_diagonal() {
    // world aim point (300000, 400000): distance 500000, x component
    // 300000^2 / 500000 = 180000, y kept unnormalized, then times five
    let velocity = launch_velocity(v(700_000, 700_000), 800_000, 600_000, v(0, 0));
    assert_eq!(velocity, v(900_000, 2_000_000));
}

#[test]
fn launch_velocity_at_center_is_zero() {
    let velocity = launch_velocity(v(400_000, 300_000), 800_000, 600_000, v(0, 0));
    assert_eq!(velocity, v(0, 0));
}

#[test]
fn shooting_spawns_at_player_each_fire_tick() {
    let mut bullets: Vec<Bullet> = Vec::new();
    let a = Actions { player_movement: None, grabbed_mouse: false, trigger_pressed: true };
    let player = Some(Player { position: v(1_000, 2_000) });
    shooting_system(&mut bullets, &a, &player, &Some(v(700_000, 300_000)), 800_000, 600_000);
    shooting_system(&mut bullets, &a, &player, &Some(v(700_000, 300_000)), 800_000, 600_000);
    assert_eq!(bullets.len(), 2);
    assert_eq!(bullets[0].position, v(1_000, 2_000));
    assert_eq!(bullets[0].lifetime, 0);
}

#[test]
fn shooting_without_fire_or_player_is_noop() {
    let mut bullets: Vec<Bullet> = Vec::new();
    let quiet = Actions::default();
    let player = Some(Player { position: v(0, 0) });
    shooting_system(&mut bullets, &quiet, &player, &None, 800_000, 600_000);
    assert!(bullets.is_empty());

    let firing = Actions { player_movement: None, grabbed_mouse: false, trigger_pressed: true };
    shooting_system(&mut bullets, &firing, &None, &None, 800_000, 600_000);
    assert!(bullets.is_empty());
}

#[test]
fn missing_pointer_aims_from_zero_offset() {
    // pointer unavailable reads as (0,0): world aim point is the player
    // translated by minus half the viewport
    let mut with_none: Vec<Bullet> = Vec::new();
    let mut with_zero: Vec<Bullet> = Vec::new();
    let firing = Actions { player_movement: None, grabbed_mouse: false, trigger_pressed: true };
    let player = Some(Player { position: v(9_000, -4_000) });
    shooting_system(&mut with_none, &firing, &player, &None, 800_000, 600_000);
    shooting_system(&mut with_zero, &firing, &player, &Some(v(0, 0)), 800_000, 600_000);
    assert_eq!(with_none[0], with_zero[0]);
}

#[test]
fn bullet_ages_by_one_per_tick_and_dies_past_limit() {
    let fast = v(10_000, 0);
    let mut bullets = vec![Bullet { position: v(0, 0), velocity: fast, lifetime: 0 }];
    for expected in 1..=50u32 {
        bullet_current_system(&mut bullets);
        bullet_delete_system(&mut bullets);
        assert_eq!(bullets.len(), 1, "still alive at age {expected}");
        assert_eq!(bullets[0].lifetime, expected);
    }
    // the 51st evaluation pushes the age past the limit and deletes it
    bullet_current_system(&mut bullets);
    assert_eq!(bullets[0].lifetime, 51);
    bullet_delete_system(&mut bullets);
    assert!(bullets.is_empty());
}

#[test]
fn slow_bullet_removed_on_the_evaluation_that_sees_it() {
    // squared speed 8000^2 + 2000^2 = 68_000_000 < 80_000_000
    let slow = v(8_000, 2_000);
    let mut bullets = vec![Bullet { position: v(0, 0), velocity: slow, lifetime: 3 }];
    bullet_current_system(&mut bullets);
    assert_eq!(bullets[0].lifetime, 51);
    bullet_delete_system(&mut bullets);
    assert!(bullets.is_empty());
}

#[test]
fn speed_floor_boundary_keeps_bullet() {
    // exactly at the floor is not below it: 80_000_000 squared milli
    let at_floor = v(8_000, 4_000);
    assert_eq!(8_000i64 * 8_000 + 4_000 * 4_000, 80_000_000);
    let mut bullets = vec![Bullet { position: v(0, 0), velocity: at_floor, lifetime: 3 }];
    bullet_current_system(&mut bullets);
    bullet_delete_system(&mut bullets);
    assert_eq!(bullets.len(), 1);
    assert_eq!(bullets[0].lifetime, 4);
}

#[test]
fn spawn_gate_closed_at_half_second() {
    let mut zombies: Vec<Zombie> = Vec::new();
    let mut last: u64 = 0;
    zombie_spawner(&mut zombies, &mut last, 500, 1_200_000);
    assert!(zombies.is_empty());
    assert_eq!(last, 0);
}

#[test]
fn spawn_gate_opens_past_one_second() {
    let mut zombies: Vec<Zombie> = Vec::new();
    let mut last: u64 = 0;
    zombie_spawner(&mut zombies, &mut last, 1_100, 1_200_000);
    assert_eq!(zombies.len(), 1);
    assert_eq!(last, 1_100);
    let z = &zombies[0];
    assert_eq!(z.health, 100);
    assert_eq!(z.position.y, -100_000);
    // drawn inside the viewport width mapped about its center; this fails
    // if the random draw ever hands back its bound unshifted
    assert!((-600_000..600_000).contains(&z.position.x));

    // a gap of a full second, no more, does not reopen the spawn window
    zombie_spawner(&mut zombies, &mut last, 2_100, 1_200_000);
    assert_eq!(zombies.len(), 1);
    assert_eq!(last, 1_100);
    // strictly more than a second opens it again
    zombie_spawner(&mut zombies, &mut last, 2_101, 1_200_000);
    assert_eq!(zombies.len(), 2);
    assert_eq!(last, 2_101);
}

#[test]
fn pursuit_steps_half_unit_toward_player() {
    let mut zombies = vec![Zombie { position: v(50_000, 0), health: 100 }];
    let player = Player { position: v(0, 0) };
    zombie_nav(&mut zombies, &player);
    assert_eq!(zombies[0].position, v(49_500, 0));
    assert_eq!(zombies[0].health, 100);
    zombie_despawn(&mut zombies);
    assert_eq!(zombies.len(), 1);
}

#[test]
fn pursuit_skips_enemy_on_player() {
    let mut zombies = vec![Zombie { position: v(123, -456), health: 100 }];
    let player = Player { position: v(123, -456) };
    zombie_nav(&mut zombies, &player);
    assert_eq!(zombies[0].position, v(123, -456));
}

#[test]
fn despawn_removes_exhausted_health_only() {
    let mut zombies = vec![
        Zombie { position: v(0, 0), health: 0 },
        Zombie { position: v(1, 1), health: 100 },
        Zombie { position: v(2, 2), health: 0 },
        Zombie { position: v(3, 3), health: 1 },
    ];
    zombie_despawn(&mut zombies);
    assert_eq!(zombies.len(), 2);
    assert_eq!(zombies[0].position, v(1, 1));
    assert_eq!(zombies[1].position, v(3, 3));
}
