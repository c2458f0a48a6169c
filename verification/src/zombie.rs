use vstd::prelude::*;
use crate::player::Player;
use crate::seq_facts::lemma_filter_push;
use crate::vec2::{isqrt, lemma_isqrt_lower_bound, sdiv, spec_isqrt, Vec2Milli};

verus! {

/// Health an enemy spawns with. Nothing in the simulation core lowers it;
/// the despawn check is still required and stands in [`zombie_despawn`].
pub const SPAWN_HEALTH: u32 = 100;

/// Vertical world coordinate every enemy spawns at: 100 units below the
/// origin, in milliunits.
pub const SPAWN_Y: i64 = -100_000;

/// Minimum interval between two enemy spawns, in milliseconds.
pub const SPAWN_INTERVAL_MS: u64 = 1000;

/// Per-tick pursuit step: half a distance unit, in milliunits. The step is
/// deliberately not scaled by elapsed tick time, unlike player movement.
pub const PURSUIT_STEP: i64 = 500;

/// Viewport widths the spawner accepts, in milliunits.
pub const SPAWN_WIDTH_LIMIT: u64 = 4_000_000_000_000_000_000;

/// Coordinate range the pursuit pass accepts without risk of overflow.
pub const NAV_COORD_LIMIT: i64 = 4_000_000_000_000_000_000;

/// An enemy: a position stepped toward the player every tick, and a health
/// pool whose exhaustion despawns it.
#[derive(Clone, Copy, Debug, PartialEq, Eq)]
pub struct Zombie {
    pub position: Vec2Milli,
    pub health: u32,
}

/// Relies on rand::Rng::gen_range over the range `0..bound`: the sampled
/// value lies in the half-open range, and the call panics only on an empty
/// range, which `bound > 0` rules out. Nothing more is assumed of which
/// value comes back.
#[verifier::external_body]
fn random_below(bound: u64) -> (r: u64)
    requires
        bound > 0,
    ensures
        r < bound,
{
    rand::Rng::gen_range(&mut rand::thread_rng(), 0..bound)
}

/// What holds of a freshly spawned enemy whatever the random draw: full
/// health, the fixed vertical offset, and a horizontal position inside the
/// viewport width mapped about its center.
pub open spec fn spec_spawn_ok(z: Zombie, w: int) -> bool {
    &&& z.health == SPAWN_HEALTH
    &&& z.position.y == SPAWN_Y
    &&& -(w / 2) <= z.position.x < w - w / 2
}

/// Spawn one enemy when more than the spawn interval has passed since the
/// last spawn, recording the spawn time; otherwise change nothing. Spawns
/// therefore come at most once per simulated second.
pub fn zombie_spawner(
    zombies: &mut Vec<Zombie>,
    last_spawn_ms: &mut u64,
    now_ms: u64,
    viewport_w: u64,
)
    requires
        *old(last_spawn_ms) <= now_ms,
        1 <= viewport_w <= SPAWN_WIDTH_LIMIT,
    ensures
        now_ms - *old(last_spawn_ms) > SPAWN_INTERVAL_MS ==> {
            &&& final(zombies)@ == old(zombies)@.push(final(zombies)@.last())
            &&& spec_spawn_ok(final(zombies)@.last(), viewport_w as int)
            &&& *final(last_spawn_ms) == now_ms
        },
        now_ms - *old(last_spawn_ms) <= SPAWN_INTERVAL_MS ==> {
            &&& final(zombies)@ == old(zombies)@
            &&& *final(last_spawn_ms) == *old(last_spawn_ms)
        },
{
    let lst: u64 = now_ms - *last_spawn_ms;
    let a: u64 = random_below(viewport_w);
    if lst > SPAWN_INTERVAL_MS {
        let x: i64 = (a as i64) - ((viewport_w / 2) as i64);
        zombies.push(Zombie { position: Vec2Milli { x, y: SPAWN_Y }, health: SPAWN_HEALTH });
        *last_spawn_ms = now_ms;
        proof {
            assert(zombies@ == old(zombies)@.push(zombies@.last()));
        }
    }
}

/// One pursuit step: the enemy moves the fixed step along the direction to
/// the player, each component truncated toward zero; an enemy standing
/// exactly on the player stays put.
pub open spec fn spec_nav_step(z: Vec2Milli, player: Vec2Milli) -> Vec2Milli {
    let dx = player.x - z.x;
    let dy = player.y - z.y;
    let dist = spec_isqrt((dx * dx + dy * dy) as nat) as int;
    if dist == 0 {
        z
    } else {
        Vec2Milli {
            x: (z.x + sdiv(dx * (PURSUIT_STEP as int), dist)) as i64,
            y: (z.y + sdiv(dy * (PURSUIT_STEP as int), dist)) as i64,
        }
    }
}

fn pursue(z: Vec2Milli, player: Vec2Milli) -> (r: Vec2Milli)
    requires
        -NAV_COORD_LIMIT <= z.x <= NAV_COORD_LIMIT,
        -NAV_COORD_LIMIT <= z.y <= NAV_COORD_LIMIT,
        -NAV_COORD_LIMIT <= player.x <= NAV_COORD_LIMIT,
        -NAV_COORD_LIMIT <= player.y <= NAV_COORD_LIMIT,
    ensures
        r == spec_nav_step(z, player),
{
    let dx: i128 = (player.x as i128) - (z.x as i128);
    let dy: i128 = (player.y as i128) - (z.y as i128);
    proof {
        assert(dx * dx >= 0 && dx * dx <= 8_000_000_000_000_000_000
            * 8_000_000_000_000_000_000) by (nonlinear_arith)
            requires
                -8_000_000_000_000_000_000 <= dx <= 8_000_000_000_000_000_000,
        ;
        assert(dy * dy >= 0 && dy * dy <= 8_000_000_000_000_000_000
            * 8_000_000_000_000_000_000) by (nonlinear_arith)
            requires
                -8_000_000_000_000_000_000 <= dy <= 8_000_000_000_000_000_000,
        ;
    }
    let sq: u128 = (dx * dx + dy * dy) as u128;
    let dist: u128 = isqrt(sq);
    if dist == 0 {
        z
    } else {
        let ax: u128 = if dx >= 0 {
            dx as u128
        } else {
            (-dx) as u128
        };
        let ay: u128 = if dy >= 0 {
            dy as u128
        } else {
            (-dy) as u128
        };
        proof {
            assert((ax as int) * (ax as int) == dx * dx && (ay as int) * (ay as int) == dy
                * dy) by (nonlinear_arith)
                requires
                    ax as int == if dx >= 0 {
                        dx as int
                    } else {
                        -(dx as int)
                    },
                    ay as int == if dy >= 0 {
                        dy as int
                    } else {
                        -(dy as int)
                    },
            ;
            lemma_isqrt_lower_bound(sq as nat, ax as nat);
            lemma_isqrt_lower_bound(sq as nat, ay as nat);
            vstd::arithmetic::div_mod::lemma_div_is_ordered(
                (ax as int) * 500,
                (dist as int) * 500,
                dist as int,
            );
            vstd::arithmetic::div_mod::lemma_div_is_ordered(
                (ay as int) * 500,
                (dist as int) * 500,
                dist as int,
            );
            vstd::arithmetic::div_mod::lemma_div_multiples_vanish(500, dist as int);
        }
        let sx: u128 = ax * 500 / dist;
        let sy: u128 = ay * 500 / dist;
        let stepx: i64 = if dx >= 0 {
            sx as i64
        } else {
            -(sx as i64)
        };
        let stepy: i64 = if dy >= 0 {
            sy as i64
        } else {
            -(sy as i64)
        };
        Vec2Milli { x: z.x + stepx, y: z.y + stepy }
    }
}

/// Step every enemy toward the player for one tick; health is untouched.
pub fn zombie_nav(zombies: &mut Vec<Zombie>, player: &Player)
    requires
        -NAV_COORD_LIMIT <= player.position.x <= NAV_COORD_LIMIT,
        -NAV_COORD_LIMIT <= player.position.y <= NAV_COORD_LIMIT,
        forall|i: int|
            0 <= i < old(zombies)@.len() ==> {
                &&& -NAV_COORD_LIMIT <= (#[trigger] old(zombies)@[i]).position.x
                    <= NAV_COORD_LIMIT
                &&& -NAV_COORD_LIMIT <= old(zombies)@[i].position.y <= NAV_COORD_LIMIT
            },
    ensures
        final(zombies)@.len() == old(zombies)@.len(),
        forall|i: int|
            0 <= i < old(zombies)@.len() ==> {
                &&& (#[trigger] final(zombies)@[i]).position == spec_nav_step(
                    old(zombies)@[i].position,
                    player.position,
                )
                &&& final(zombies)@[i].health == old(zombies)@[i].health
            },
{
    let n: usize = zombies.len();
    let mut idx: usize = 0;
    while idx < n
        invariant
            n == old(zombies)@.len(),
            zombies@.len() == n,
            idx <= n,
            -NAV_COORD_LIMIT <= player.position.x <= NAV_COORD_LIMIT,
            -NAV_COORD_LIMIT <= player.position.y <= NAV_COORD_LIMIT,
            forall|i: int|
                0 <= i < idx ==> {
                    &&& (#[trigger] zombies@[i]).position == spec_nav_step(
                        old(zombies)@[i].position,
                        player.position,
                    )
                    &&& zombies@[i].health == old(zombies)@[i].health
                },
            forall|i: int| idx <= i < n ==> #[trigger] zombies@[i] == old(zombies)@[i],
            forall|i: int|
                0 <= i < n ==> {
                    &&& -NAV_COORD_LIMIT <= (#[trigger] old(zombies)@[i]).position.x
                        <= NAV_COORD_LIMIT
                    &&& -NAV_COORD_LIMIT <= old(zombies)@[i].position.y <= NAV_COORD_LIMIT
                },
        decreases n - idx,
    {
        let z: Zombie = zombies[idx];
        let moved = pursue(z.position, player.position);
        zombies[idx] = Zombie { position: moved, health: z.health };
        idx = idx + 1;
    }
}

/// The enemy survives the despawn pass: its health is not exhausted.
pub open spec fn spec_zombie_alive(z: Zombie) -> bool {
    z.health > 0
}

/// The despawn predicate, shared by the despawn pass and its callers.
pub open spec fn zombie_alive_pred() -> spec_fn(Zombie) -> bool {
    |z: Zombie| spec_zombie_alive(z)
}

/// Remove every enemy whose health is exhausted, keeping the rest in order.
pub fn zombie_despawn(zombies: &mut Vec<Zombie>)
    ensures
        final(zombies)@ == old(zombies)@.filter(zombie_alive_pred()),
{
    let n: usize = zombies.len();
    let mut kept: Vec<Zombie> = Vec::new();
    let mut idx: usize = 0;
    while idx < n
        invariant
            n == zombies@.len(),
            zombies@ == old(zombies)@,
            idx <= n,
            kept@ == old(zombies)@.subrange(0, idx as int).filter(zombie_alive_pred()),
        decreases n - idx,
    {
        let z: Zombie = zombies[idx];
        if z.health > 0 {
            kept.push(z);
        }
        proof {
            let sub = old(zombies)@.subrange(0, idx as int);
            assert(old(zombies)@.subrange(0, idx as int + 1) =~= sub.push(z));
            lemma_filter_push(sub, z, zombie_alive_pred());
        }
        idx = idx + 1;
    }
    proof {
        assert(old(zombies)@.subrange(0, n as int) =~= old(zombies)@);
    }
    *zombies = kept;
}

} // verus!
