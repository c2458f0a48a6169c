use vstd::prelude::*;
use crate::actions::{set_movement_actions, spec_resolve, Actions};
use crate::bullet::{
    bullet_current_system, bullet_delete_system, lemma_launch_velocity_bounds, shooting_system,
    spec_bullets_after, spec_velocity_in_range, Bullet,
};
use crate::input::InputSnapshot;
use crate::player::{move_player, spec_moved_position, Player, MAX_TICK_MS};
use crate::vec2::Vec2Milli;
use crate::zombie::{
    spec_nav_step, spec_spawn_ok, zombie_alive_pred, zombie_despawn, zombie_nav, zombie_spawner,
    Zombie, SPAWN_INTERVAL_MS,
};

verus! {

/// Coordinate range, in milliunits, within which a tick runs with every
/// intermediate value comfortably in bounds.
pub const TICK_COORD_LIMIT: i64 = 100_000_000_000_000;

/// The entity registry and per-session state the simulation loop owns: the
/// one optional player, the projectiles and enemies in spawn order, the
/// latched intent, and the spawn gate's timer.
pub struct World {
    pub player: Option<Player>,
    pub bullets: Vec<Bullet>,
    pub zombies: Vec<Zombie>,
    pub actions: Actions,
    pub last_spawn_ms: u64,
}

/// What the outside collaborators hand the loop for one tick: elapsed and
/// absolute time in milliseconds, the pointer position if it is inside the
/// viewport, and the viewport size in milliunits.
#[derive(Clone, Copy, Debug, PartialEq, Eq)]
pub struct TickCtx {
    pub dt_ms: u64,
    pub now_ms: u64,
    pub mouse: Option<Vec2Milli>,
    pub viewport_w: u64,
    pub viewport_h: u64,
}

pub open spec fn in_tick_range(v: Vec2Milli) -> bool {
    &&& -TICK_COORD_LIMIT <= v.x <= TICK_COORD_LIMIT
    &&& -TICK_COORD_LIMIT <= v.y <= TICK_COORD_LIMIT
}

/// The machine-limit bounds under which one tick runs: times are ordered
/// and a tick is at most a day, the viewport is nondegenerate, and every
/// position, pointer and projectile velocity is within range.
pub open spec fn spec_tick_ready(w: World, ctx: TickCtx) -> bool {
    &&& ctx.dt_ms <= MAX_TICK_MS
    &&& w.last_spawn_ms <= ctx.now_ms
    &&& 1 <= ctx.viewport_w <= TICK_COORD_LIMIT as u64
    &&& 1 <= ctx.viewport_h <= TICK_COORD_LIMIT as u64
    &&& match w.player {
        Some(p) => in_tick_range(p.position),
        None => true,
    }
    &&& match ctx.mouse {
        Some(m) => in_tick_range(m),
        None => true,
    }
    &&& forall|i: int|
        0 <= i < w.zombies@.len() ==> in_tick_range((#[trigger] w.zombies@[i]).position)
    &&& forall|i: int|
        0 <= i < w.bullets@.len() ==> (#[trigger] w.bullets@[i]).lifetime < u32::MAX
            && spec_velocity_in_range(w.bullets@[i])
}

/// The enemy roster after one tick: a new enemy appended when the spawn
/// interval allows; every enemy then stepped toward the player, skipped
/// while no player exists; enemies with exhausted health removed at the end.
pub open spec fn spec_zombies_after(
    zombies: Seq<Zombie>,
    spawned: Option<Zombie>,
    player: Option<Player>,
) -> Seq<Zombie> {
    let with_new = match spawned {
        Some(z) => zombies.push(z),
        None => zombies,
    };
    let moved = match player {
        Some(p) => with_new.map_values(
            |z: Zombie| Zombie { position: spec_nav_step(z.position, p.position), health: z.health },
        ),
        None => with_new,
    };
    moved.filter(zombie_alive_pred())
}

impl World {
    /// A fresh session: the player standing at the origin, no projectiles,
    /// no enemies, idle intent, and the spawn gate timed from zero.
    pub fn new() -> (w: World)
        ensures
            w.player matches Some(p) && p.position == (Vec2Milli { x: 0, y: 0 }),
            w.bullets@ == Seq::<Bullet>::empty(),
            w.zombies@ == Seq::<Zombie>::empty(),
            w.actions.player_movement is None,
            !w.actions.grabbed_mouse,
            !w.actions.trigger_pressed,
            w.last_spawn_ms == 0,
    {
        World {
            player: Some(Player { position: Vec2Milli { x: 0, y: 0 } }),
            bullets: Vec::new(),
            zombies: Vec::new(),
            actions: Actions {
                player_movement: None,
                grabbed_mouse: false,
                trigger_pressed: false,
            },
            last_spawn_ms: 0,
        }
    }

    /// Run one tick in the fixed order: resolve input, move the player,
    /// fire, age projectiles, delete expired projectiles, open the spawn
    /// gate, pursue, despawn dead enemies. A missing player silently skips
    /// movement, fire and pursuit; a missing pointer aims from the zero
    /// offset.
    pub fn tick(&mut self, input: &InputSnapshot, ctx: &TickCtx)
        requires
            spec_tick_ready(*old(self), *ctx),
        ensures
            final(self).actions == spec_resolve(*input, old(self).actions),
            match old(self).player {
                Some(p) => final(self).player matches Some(q) && q.position.x as int
                    == spec_moved_position(
                    p.position,
                    spec_resolve(*input, old(self).actions).player_movement,
                    ctx.dt_ms as int,
                ).0 && q.position.y as int == spec_moved_position(
                    p.position,
                    spec_resolve(*input, old(self).actions).player_movement,
                    ctx.dt_ms as int,
                ).1,
                None => final(self).player is None,
            },
            final(self).bullets@ == spec_bullets_after(
                old(self).bullets@,
                spec_resolve(*input, old(self).actions),
                final(self).player,
                ctx.mouse,
                ctx.viewport_w as int,
                ctx.viewport_h as int,
            ),
            ctx.now_ms - old(self).last_spawn_ms > SPAWN_INTERVAL_MS ==> {
                &&& final(self).last_spawn_ms == ctx.now_ms
                &&& exists|z: Zombie|
                    spec_spawn_ok(z, ctx.viewport_w as int) && final(self).zombies@
                        == spec_zombies_after(old(self).zombies@, Some(z), final(self).player)
            },
            ctx.now_ms - old(self).last_spawn_ms <= SPAWN_INTERVAL_MS ==> {
                &&& final(self).last_spawn_ms == old(self).last_spawn_ms
                &&& final(self).zombies@ == spec_zombies_after(
                    old(self).zombies@,
                    None,
                    final(self).player,
                )
            },
    {
        set_movement_actions(&mut self.actions, input);

        if self.player.is_some() {
            let mut p = self.player.unwrap();
            proof {
                crate::player::lemma_moved_position_bound(
                    p.position,
                    spec_resolve(*input, old(self).actions).player_movement,
                    ctx.dt_ms as int,
                );
            }
            move_player(&mut p, &self.actions, ctx.dt_ms);
            self.player = Some(p);
        }

        shooting_system(
            &mut self.bullets,
            &self.actions,
            &self.player,
            &ctx.mouse,
            ctx.viewport_w as i64,
            ctx.viewport_h as i64,
        );
        let ghost bullets_fired = self.bullets@;
        proof {
            if self.actions.trigger_pressed && self.player is Some {
                lemma_launch_velocity_bounds(
                    crate::bullet::spec_mouse_or_origin(ctx.mouse),
                    ctx.viewport_w as int,
                    ctx.viewport_h as int,
                    self.player->Some_0.position,
                );
            }
        }
        bullet_current_system(&mut self.bullets);
        let ghost bullets_aged = self.bullets@;
        proof {
            assert(bullets_aged =~= bullets_fired.map_values(
                |b: Bullet| crate::bullet::spec_age_step(b),
            ));
        }
        bullet_delete_system(&mut self.bullets);

        zombie_spawner(&mut self.zombies, &mut self.last_spawn_ms, ctx.now_ms, ctx.viewport_w);
        let ghost zombies_spawned = self.zombies@;
        if self.player.is_some() {
            let p = self.player.unwrap();
            zombie_nav(&mut self.zombies, &p);
        }
        let ghost zombies_moved = self.zombies@;
        proof {
            match self.player {
                Some(p) => {
                    assert(zombies_moved =~= zombies_spawned.map_values(
                        |z: Zombie| Zombie {
                            position: spec_nav_step(z.position, p.position),
                            health: z.health,
                        },
                    ));
                },
                None => {},
            }
        }
        zombie_despawn(&mut self.zombies);
    }
}

} // verus!
