use vstd::prelude::*;
use crate::actions::Actions;
use crate::player::Player;
use crate::seq_facts::lemma_filter_push;
use crate::vec2::{
    isqrt, lemma_isqrt_lower_bound, lemma_square_div_le, spec_isqrt, sq_mag,
    squared_magnitude, Vec2Milli,
};

verus! {

/// Age, in ticks, past which a projectile is deleted.
pub const AGE_LIMIT: u32 = 50;

/// Squared speed below which a projectile is marked expired, in squared
/// milliunits: 80 squared distance units.
pub const SPEED_FLOOR_SQ: i128 = 80_000_000;

/// Launch speed multiplier applied to the heading vector.
pub const LAUNCH_SCALE: i64 = 5;

/// Coordinate bound, in milliunits, accepted by the aim computation.
pub const AIM_LIMIT: i64 = 1_000_000_000_000_000;

/// A projectile: spawned at the player on a fire tick, aged every tick,
/// deleted past the age limit or once its speed falls under the floor.
#[derive(Clone, Copy, Debug, PartialEq, Eq)]
pub struct Bullet {
    pub position: Vec2Milli,
    pub velocity: Vec2Milli,
    pub lifetime: u32,
}

/// The projectile's squared speed is under the floor.
pub open spec fn spec_slow(b: Bullet) -> bool {
    sq_mag(b.velocity) < SPEED_FLOOR_SQ as int
}

/// The projectile survives the deletion pass.
pub open spec fn spec_alive(b: Bullet) -> bool {
    b.lifetime <= AGE_LIMIT
}

/// One aging evaluation: a projectile under the speed floor is first forced
/// to the age limit, and every projectile then ages by one tick, so a slow
/// projectile stands past the limit on the same evaluation.
pub open spec fn spec_age_step(b: Bullet) -> Bullet {
    let l: u32 = if spec_slow(b) {
        AGE_LIMIT
    } else {
        b.lifetime
    };
    Bullet { position: b.position, velocity: b.velocity, lifetime: (l + 1) as u32 }
}

/// The pointer position mapped into world space: its offset from the
/// viewport center, translated by the player's position.
pub open spec fn spec_aim_world(mouse: Vec2Milli, vw: int, vh: int, player: Vec2Milli) -> (
    int,
    int,
) {
    (mouse.x - vw / 2 + player.x, mouse.y - vh / 2 + player.y)
}

/// Map the pointer into world space. The rotation the renderer applies to
/// the player sprite each tick is the heading angle of this point, which an
/// outside collaborator derives because it needs floating point.
pub fn aim_world(mouse: Vec2Milli, viewport_w: i64, viewport_h: i64, player: Vec2Milli) -> (w:
    Vec2Milli)
    requires
        0 <= viewport_w <= AIM_LIMIT,
        0 <= viewport_h <= AIM_LIMIT,
        -AIM_LIMIT <= mouse.x <= AIM_LIMIT,
        -AIM_LIMIT <= mouse.y <= AIM_LIMIT,
        -AIM_LIMIT <= player.x <= AIM_LIMIT,
        -AIM_LIMIT <= player.y <= AIM_LIMIT,
    ensures
        w.x as int == spec_aim_world(mouse, viewport_w as int, viewport_h as int, player).0,
        w.y as int == spec_aim_world(mouse, viewport_w as int, viewport_h as int, player).1,
{
    Vec2Milli {
        x: mouse.x - viewport_w / 2 + player.x,
        y: mouse.y - viewport_h / 2 + player.y,
    }
}

/// The heading vector of a world-space aim point: rotating the point by its
/// own heading angle about the vertical axis leaves (x * x / |w|, y), and
/// the origin aims nowhere.
pub open spec fn spec_heading_vector(wx: int, wy: int) -> (int, int) {
    let m = spec_isqrt((wx * wx + wy * wy) as nat) as int;
    if m == 0 {
        (0, 0)
    } else {
        (wx * wx / m, wy)
    }
}

/// The launch velocity: the heading vector of the aim point, the horizontal
/// component flipped when the pointer's screen offset lies left of the
/// player, scaled by the launch multiplier.
pub open spec fn spec_launch_velocity(mouse: Vec2Milli, vw: int, vh: int, player: Vec2Milli) -> (
    int,
    int,
) {
    let w = spec_aim_world(mouse, vw, vh, player);
    let h = spec_heading_vector(w.0, w.1);
    let hx = if mouse.x - vw / 2 - player.x < 0 {
        -h.0
    } else {
        h.0
    };
    ((LAUNCH_SCALE as int) * hx, (LAUNCH_SCALE as int) * h.1)
}

/// Compute the launch velocity of a projectile fired while the pointer
/// stands at `mouse` in viewport coordinates.
pub fn launch_velocity(mouse: Vec2Milli, viewport_w: i64, viewport_h: i64, player: Vec2Milli) -> (
    v: Vec2Milli)
    requires
        0 <= viewport_w <= AIM_LIMIT,
        0 <= viewport_h <= AIM_LIMIT,
        -AIM_LIMIT <= mouse.x <= AIM_LIMIT,
        -AIM_LIMIT <= mouse.y <= AIM_LIMIT,
        -AIM_LIMIT <= player.x <= AIM_LIMIT,
        -AIM_LIMIT <= player.y <= AIM_LIMIT,
    ensures
        v.x as int == spec_launch_velocity(mouse, viewport_w as int, viewport_h as int, player).0,
        v.y as int == spec_launch_velocity(mouse, viewport_w as int, viewport_h as int, player).1,
        -15 * AIM_LIMIT <= v.x <= 15 * AIM_LIMIT,
        -15 * AIM_LIMIT <= v.y <= 15 * AIM_LIMIT,
{
    let wx: i64 = mouse.x - viewport_w / 2 + player.x;
    let wy: i64 = mouse.y - viewport_h / 2 + player.y;
    let w = Vec2Milli { x: wx, y: wy };
    let sq: i128 = squared_magnitude(&w);
    let m: u128 = isqrt(sq as u128);
    proof {
        assert(sq as u128 as nat == sq_mag(w) as nat);
    }
    let ghost ax: int = if wx >= 0 {
        wx as int
    } else {
        -(wx as int)
    };
    let (hx0, hy): (i64, i64) = if m == 0 {
        (0i64, 0i64)
    } else {
        proof {
            assert(ax * ax == (wx as int) * (wx as int) && ax * ax >= 0) by (nonlinear_arith)
                requires
                    ax == if wx >= 0 {
                        wx as int
                    } else {
                        -(wx as int)
                    },
            ;
            assert(ax * ax <= sq_mag(w)) by (nonlinear_arith)
                requires
                    ax * ax == (wx as int) * (wx as int),
                    sq_mag(w) == (wx as int) * (wx as int) + (wy as int) * (wy as int),
            ;
            lemma_isqrt_lower_bound(sq_mag(w) as nat, ax as nat);
            lemma_square_div_le(ax, m as int);
        }
        let num: u128 = ((wx as i128) * (wx as i128)) as u128;
        let q: u128 = num / m;
        (q as i64, wy)
    };
    let flip: bool = mouse.x - viewport_w / 2 - player.x < 0;
    let hx: i64 = if flip {
        -hx0
    } else {
        hx0
    };
    Vec2Milli { x: 5 * hx, y: 5 * hy }
}

/// The launch velocity never exceeds the launch multiplier times three
/// half aim bounds in either component.
pub proof fn lemma_launch_velocity_bounds(mouse: Vec2Milli, vw: int, vh: int, player: Vec2Milli)
    requires
        0 <= vw <= AIM_LIMIT,
        0 <= vh <= AIM_LIMIT,
        -AIM_LIMIT <= mouse.x <= AIM_LIMIT,
        -AIM_LIMIT <= mouse.y <= AIM_LIMIT,
        -AIM_LIMIT <= player.x <= AIM_LIMIT,
        -AIM_LIMIT <= player.y <= AIM_LIMIT,
    ensures
        -15 * (AIM_LIMIT as int) <= spec_launch_velocity(mouse, vw, vh, player).0 <= 15 * (
        AIM_LIMIT as int),
        -15 * (AIM_LIMIT as int) <= spec_launch_velocity(mouse, vw, vh, player).1 <= 15 * (
        AIM_LIMIT as int),
{
    let w = spec_aim_world(mouse, vw, vh, player);
    let wx = w.0;
    let wy = w.1;
    let ax = if wx >= 0 {
        wx
    } else {
        -wx
    };
    assert(ax * ax == wx * wx && ax * ax >= 0 && wy * wy >= 0) by (nonlinear_arith)
        requires
            ax == if wx >= 0 {
                wx
            } else {
                -wx
            },
    ;
    let sq = (wx * wx + wy * wy) as nat;
    crate::vec2::lemma_isqrt_exists(sq);
    let m = spec_isqrt(sq) as int;
    if m != 0 {
        lemma_isqrt_lower_bound(sq, ax as nat);
        lemma_square_div_le(ax, m);
    }
}

/// The pointer position this tick, with an unavailable pointer read as the
/// zero offset rather than an error.
pub open spec fn spec_mouse_or_origin(mouse: Option<Vec2Milli>) -> Vec2Milli {
    match mouse {
        Some(m) => m,
        None => Vec2Milli { x: 0, y: 0 },
    }
}

/// The projectile a fire tick spawns: at the player, aimed by the pointer,
/// age zero.
pub open spec fn spec_fired_bullet(
    player: Vec2Milli,
    mouse: Option<Vec2Milli>,
    vw: int,
    vh: int,
) -> Bullet {
    let v = spec_launch_velocity(spec_mouse_or_origin(mouse), vw, vh, player);
    Bullet {
        position: player,
        velocity: Vec2Milli { x: v.0 as i64, y: v.1 as i64 },
        lifetime: 0,
    }
}

/// Spawn one projectile at the player on every tick where fire is held; a
/// missing player makes the tick a silent no-op. The fire rate is bounded
/// only by the tick rate: there is deliberately no cooldown.
pub fn shooting_system(
    bullets: &mut Vec<Bullet>,
    actions: &Actions,
    player: &Option<Player>,
    mouse: &Option<Vec2Milli>,
    viewport_w: i64,
    viewport_h: i64,
)
    requires
        0 <= viewport_w <= AIM_LIMIT,
        0 <= viewport_h <= AIM_LIMIT,
        match *mouse {
            Some(mp) => -AIM_LIMIT <= mp.x <= AIM_LIMIT && -AIM_LIMIT <= mp.y <= AIM_LIMIT,
            None => true,
        },
        match *player {
            Some(p) => -AIM_LIMIT <= p.position.x <= AIM_LIMIT && -AIM_LIMIT <= p.position.y
                <= AIM_LIMIT,
            None => true,
        },
    ensures
        match *player {
            Some(p) => final(bullets)@ == if actions.trigger_pressed {
                old(bullets)@.push(
                    spec_fired_bullet(p.position, *mouse, viewport_w as int, viewport_h as int),
                )
            } else {
                old(bullets)@
            },
            None => final(bullets)@ == old(bullets)@,
        },
{
    if actions.trigger_pressed {
        let mouse_pos: Vec2Milli = match mouse {
            Some(m) => *m,
            None => Vec2Milli { x: 0, y: 0 },
        };
        match player {
            Some(p) => {
                let v = launch_velocity(mouse_pos, viewport_w, viewport_h, p.position);
                bullets.push(Bullet { position: p.position, velocity: v, lifetime: 0 });
            },
            None => {},
        }
    }
}

/// The velocity is within the bound the aging pass can square safely.
pub open spec fn spec_velocity_in_range(b: Bullet) -> bool {
    -crate::vec2::COMPONENT_LIMIT <= b.velocity.x <= crate::vec2::COMPONENT_LIMIT
        && -crate::vec2::COMPONENT_LIMIT <= b.velocity.y <= crate::vec2::COMPONENT_LIMIT
}

/// Run one aging evaluation over every live projectile.
pub fn bullet_current_system(bullets: &mut Vec<Bullet>)
    requires
        forall|i: int|
            0 <= i < old(bullets)@.len() ==> (#[trigger] old(bullets)@[i]).lifetime < u32::MAX
                && spec_velocity_in_range(old(bullets)@[i]),
    ensures
        final(bullets)@.len() == old(bullets)@.len(),
        forall|i: int|
            0 <= i < old(bullets)@.len() ==> final(bullets)@[i] == spec_age_step(
                #[trigger] old(bullets)@[i],
            ),
{
    let n: usize = bullets.len();
    let mut idx: usize = 0;
    while idx < n
        invariant
            n == old(bullets)@.len(),
            bullets@.len() == n,
            idx <= n,
            forall|i: int|
                0 <= i < idx ==> bullets@[i] == spec_age_step(#[trigger] old(bullets)@[i]),
            forall|i: int| idx <= i < n ==> #[trigger] bullets@[i] == old(bullets)@[i],
            forall|i: int|
                0 <= i < n ==> (#[trigger] old(bullets)@[i]).lifetime < u32::MAX
                    && spec_velocity_in_range(old(bullets)@[i]),
        decreases n - idx,
    {
        let b: Bullet = bullets[idx];
        let sq: i128 = squared_magnitude(&b.velocity);
        let forced: u32 = if sq < SPEED_FLOOR_SQ {
            AGE_LIMIT
        } else {
            b.lifetime
        };
        bullets[idx] = Bullet { position: b.position, velocity: b.velocity, lifetime: forced + 1 };
        idx = idx + 1;
    }
}

/// The deletion predicate, shared by the deletion pass and its callers.
pub open spec fn alive_pred() -> spec_fn(Bullet) -> bool {
    |b: Bullet| spec_alive(b)
}

/// Delete every projectile whose age is past the limit, keeping the rest in
/// order.
pub fn bullet_delete_system(bullets: &mut Vec<Bullet>)
    ensures
        final(bullets)@ == old(bullets)@.filter(alive_pred()),
{
    let n: usize = bullets.len();
    let mut kept: Vec<Bullet> = Vec::new();
    let mut idx: usize = 0;
    while idx < n
        invariant
            n == bullets@.len(),
            bullets@ == old(bullets)@,
            idx <= n,
            kept@ == old(bullets)@.subrange(0, idx as int).filter(alive_pred()),
        decreases n - idx,
    {
        let b: Bullet = bullets[idx];
        if b.lifetime <= AGE_LIMIT {
            kept.push(b);
        }
        proof {
            let sub = old(bullets)@.subrange(0, idx as int);
            assert(old(bullets)@.subrange(0, idx as int + 1) =~= sub.push(b));
            lemma_filter_push(sub, b, alive_pred());
        }
        idx = idx + 1;
    }
    proof {
        assert(old(bullets)@.subrange(0, n as int) =~= old(bullets)@);
    }
    *bullets = kept;
}

/// The whole projectile pipeline of one tick, in order: fire, age, delete.
pub open spec fn spec_bullets_after(
    bullets: Seq<Bullet>,
    actions: Actions,
    player: Option<Player>,
    mouse: Option<Vec2Milli>,
    vw: int,
    vh: int,
) -> Seq<Bullet> {
    let with_new = match player {
        Some(p) => if actions.trigger_pressed {
            bullets.push(spec_fired_bullet(p.position, mouse, vw, vh))
        } else {
            bullets
        },
        None => bullets,
    };
    with_new.map_values(|b: Bullet| spec_age_step(b)).filter(alive_pred())
}

/// While a projectile stays at or above the speed floor, one evaluation ages
/// it by exactly one tick, and it survives the deletion pass exactly until
/// the first evaluation that pushes its age past the limit.
pub proof fn lemma_bullet_aging(b: Bullet)
    requires
        !spec_slow(b),
        b.lifetime < u32::MAX,
    ensures
        spec_age_step(b).lifetime == b.lifetime + 1,
        spec_alive(spec_age_step(b)) <==> b.lifetime < AGE_LIMIT,
{
}

/// A projectile under the speed floor does not survive the evaluation that
/// sees the drop, whatever its age was.
pub proof fn lemma_slow_bullet_expires(b: Bullet)
    requires
        spec_slow(b),
    ensures
        spec_age_step(b).lifetime == AGE_LIMIT + 1,
        !spec_alive(spec_age_step(b)),
{
}

/// After one tick's projectile pipeline, no surviving projectile is under
/// the speed floor.
pub proof fn lemma_no_slow_survivor(
    bullets: Seq<Bullet>,
    actions: Actions,
    player: Option<Player>,
    mouse: Option<Vec2Milli>,
    vw: int,
    vh: int,
)
    ensures
        forall|i: int|
            0 <= i < spec_bullets_after(bullets, actions, player, mouse, vw, vh).len()
                ==> !spec_slow(
                #[trigger] spec_bullets_after(bullets, actions, player, mouse, vw, vh)[i],
            ),
{
    let with_new = match player {
        Some(p) => if actions.trigger_pressed {
            bullets.push(spec_fired_bullet(p.position, mouse, vw, vh))
        } else {
            bullets
        },
        None => bullets,
    };
    let mapped = with_new.map_values(|b: Bullet| spec_age_step(b));
    let after = mapped.filter(alive_pred());
    assert forall|i: int| 0 <= i < after.len() implies !spec_slow(#[trigger] after[i]) by {
        mapped.lemma_filter_pred(alive_pred(), i);
        crate::seq_facts::lemma_filter_elements(mapped, alive_pred(), i);
        let j = choose|j: int| 0 <= j < mapped.len() && mapped[j] == after[i];
        assert(mapped[j] == spec_age_step(with_new[j]));
    }
}

} // verus!
