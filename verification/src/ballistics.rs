//! The projectile ballistics solver: the closed-form launch velocity
//! that hits a target under constant gravity, the standoff spawn offset,
//! and the projectile collide-then-despawn lifecycle.

use vstd::prelude::*;
use crate::events::{spec_partners, CollisionPair};
use crate::math::{div_toward_zero, spec_isqrt};
use crate::physics::Velocity;
use crate::timer::TimerMs;

verus! {

/// Bound on the coordinates the solver accepts, in world units.
pub const BALLISTIC_POS_LIMIT: i64 = 1_000_000;

/// Bound on the speed and gravity the solver accepts, in world units.
pub const BALLISTIC_SPEED_LIMIT: i64 = 100_000;

/// The discriminant of the launch-angle equation:
/// `speed^4 - gravity (gravity dx^2 + 2 dy speed^2)`. The target is
/// reachable at the given speed exactly when this is non-negative.
pub open spec fn spec_ballistic_disc(speed: int, gravity: int, dx: int, dy: int) -> int {
    let v2 = speed * speed;
    v2 * v2 - gravity * (gravity * (dx * dx) + 2 * (dy * v2))
}

/// The tangent numerator of the chosen arc: `speed^2` plus the root of
/// the discriminant for the high arc, minus it for the low arc.
pub open spec fn spec_arc_numerator(speed: int, gravity: int, dx: int, dy: int, high: bool) -> int {
    let root = spec_isqrt(spec_ballistic_disc(speed, gravity, dx, dy));
    if high {
        speed * speed + root
    } else {
        speed * speed - root
    }
}

/// The launch velocity for a sideways shot, in milliunits per second:
/// with `a = gravity |dx|` and `n` the arc numerator, the direction
/// `(a, n)` rescaled to the launch speed, the horizontal part signed
/// like `dx`. The hypotenuse is rooted at a thousandfold scale, so its
/// floor costs at most a thousandth of the speed, not a whole unit.
pub open spec fn spec_arc_velocity(speed: int, gravity: int, dx: int, dy: int, high: bool) -> (
    int,
    int,
) {
    let a = gravity * abs_int(dx);
    let n = spec_arc_numerator(speed, gravity, dx, dy, high);
    let h = spec_isqrt(1_000_000 * (a * a + n * n));
    let vx = div_toward_zero(1_000_000 * speed * a, h);
    let vy = div_toward_zero(1_000_000 * speed * n, h);
    if dx > 0 {
        (vx, vy)
    } else {
        (-vx, vy)
    }
}

/// The magnitude of an integer.
pub open spec fn abs_int(x: int) -> int {
    if x >= 0 {
        x
    } else {
        -x
    }
}

/// What the solver returns for each input: a vertical shot straight up
/// or down at full speed, no solution when the discriminant is
/// negative, and otherwise the chosen arc's launch velocity.
pub open spec fn spec_solve_ballistic(
    start_x: int,
    start_y: int,
    target_x: int,
    target_y: int,
    speed: int,
    gravity: int,
    high: bool,
) -> Option<(int, int)> {
    let dx = target_x - start_x;
    let dy = target_y - start_y;
    if dx == 0 {
        Some(
            (
                0,
                if dy > 0 {
                    1000 * speed
                } else {
                    -(1000 * speed)
                },
            ),
        )
    } else if spec_ballistic_disc(speed, gravity, dx, dy) < 0 {
        None
    } else {
        Some(spec_arc_velocity(speed, gravity, dx, dy, high))
    }
}

/// Solves for the launch velocity that carries a projectile from
/// `start` to `target` at the given speed under constant downward
/// gravity, preferring the high or the low arc. Positions are in world
/// units; the returned velocity is in milliunits per second. A target
/// straight above or below gets a vertical shot at full speed; a target
/// beyond the speed's reach (negative discriminant) gets no solution,
/// and exactly those targets get none.
pub fn solve_ballistic_velocity(
    start_x: i64,
    start_y: i64,
    target_x: i64,
    target_y: i64,
    speed: i64,
    gravity: i64,
    prefer_high_arc: bool,
) -> (result: Option<Velocity>)
    requires
        -BALLISTIC_POS_LIMIT <= start_x <= BALLISTIC_POS_LIMIT,
        -BALLISTIC_POS_LIMIT <= start_y <= BALLISTIC_POS_LIMIT,
        -BALLISTIC_POS_LIMIT <= target_x <= BALLISTIC_POS_LIMIT,
        -BALLISTIC_POS_LIMIT <= target_y <= BALLISTIC_POS_LIMIT,
        1 <= speed <= BALLISTIC_SPEED_LIMIT,
        1 <= gravity <= BALLISTIC_SPEED_LIMIT,
    ensures
        result is Some <==> (target_x == start_x || spec_ballistic_disc(
            speed as int,
            gravity as int,
            target_x - start_x,
            target_y - start_y,
        ) >= 0),
        result matches Some(v) ==> {
            &&& Some((v.x as int, v.y as int)) == spec_solve_ballistic(
                start_x as int,
                start_y as int,
                target_x as int,
                target_y as int,
                speed as int,
                gravity as int,
                prefer_high_arc,
            )
            &&& -1000 * speed <= v.x <= 1000 * speed
            &&& -1000 * speed <= v.y <= 1000 * speed
            &&& v.x * v.x + v.y * v.y <= 1_002_001 * (speed * speed)
            &&& v.x * v.x + v.y * v.y >= 1_000_000 * (speed * speed) - 4_000 * speed
        },
{
    let dx = target_x - start_x;
    let dy = target_y - start_y;
    if dx == 0 {
        let vy = if dy > 0 {
            1000 * speed
        } else {
            -(1000 * speed)
        };
        proof {
            assert((vy as int) * (vy as int) == 1_000_000 * ((speed as int) * (speed as int)))
                by (nonlinear_arith)
                requires
                    vy == 1000 * speed || vy == -(1000 * speed),
            ;
            assert((speed as int) * (speed as int) >= 0) by (nonlinear_arith);
        }
        return Some(Velocity { x: 0, y: vy });
    }
    let s = speed as i128;
    let g = gravity as i128;
    proof {
        assert(0 < s * s <= 10_000_000_000int) by (nonlinear_arith)
            requires
                1 <= s <= 100_000,
        ;
        assert((s * s) * (s * s) <= 100_000_000_000_000_000_000int) by (nonlinear_arith)
            requires
                0 < s * s <= 10_000_000_000int,
        ;
        assert(0 <= (dx as int) * (dx as int) <= 4_000_000_000_000int && -(
        2_000_000_000_000_000_000int) <= 2 * ((dy as int) * (s * s))
            <= 2_000_000_000_000_000_000int) by (nonlinear_arith)
            requires
                -2_000_000 <= dx <= 2_000_000,
                -2_000_000 <= dy <= 2_000_000,
                0 < s * s <= 10_000_000_000int,
        ;
        assert(0 <= (g as int) * ((dx as int) * (dx as int)) <= 400_000_000_000_000_000int)
            by (nonlinear_arith)
            requires
                1 <= g <= 100_000,
                0 <= (dx as int) * (dx as int) <= 4_000_000_000_000int,
        ;
        assert(-(250_000_000_000_000_000_000_000int) <= (g as int) * ((g as int) * ((dx as int) * (
        dx as int)) + 2 * ((dy as int) * (s * s))) <= 250_000_000_000_000_000_000_000int)
            by (nonlinear_arith)
            requires
                1 <= g <= 100_000,
                0 <= (g as int) * ((dx as int) * (dx as int)) <= 400_000_000_000_000_000int,
                -(2_000_000_000_000_000_000int) <= 2 * ((dy as int) * (s * s))
                    <= 2_000_000_000_000_000_000int,
        ;
    }
    let v2 = s * s;
    let disc = v2 * v2 - g * (g * ((dx as i128) * (dx as i128)) + 2 * ((dy as i128) * v2));
    if disc < 0 {
        return None;
    }
    let root = crate::math::isqrt_u128(disc as u128) as i128;
    proof {
        assert(root as int <= 600_000_000_000int) by (nonlinear_arith)
            requires
                (root as int) * (root as int) <= 350_000_000_000_000_000_000_000int,
                0 <= root,
        ;
    }
    let num = if prefer_high_arc {
        v2 + root
    } else {
        v2 - root
    };
    let adx = if dx > 0 {
        dx as i128
    } else {
        -(dx as i128)
    };
    proof {
        assert(1 <= (g as int) * (adx as int) <= 200_000_000_000int) by (nonlinear_arith)
            requires
                1 <= g <= 100_000,
                1 <= adx <= 2_000_000,
        ;
    }
    let a = g * adx;
    proof {
        assert(0 < (a as int) * (a as int) <= 100_000_000_000_000_000_000_000int && 0 <= (
        num as int) * (num as int) <= 500_000_000_000_000_000_000_000int) by (nonlinear_arith)
            requires
                1 <= a <= 200_000_000_000int,
                -700_000_000_000int <= num <= 700_000_000_000int,
        ;
    }
    let h2 = a * a + num * num;
    let h = crate::math::isqrt_u128((1_000_000 * h2) as u128) as i128;
    proof {
        assert(h >= 1000) by {
            assert(1_000_000 * h2 >= 1_000_000);
            if h < 1000 {
                assert((h as int + 1) * (h as int + 1) <= 1_000_000) by (nonlinear_arith)
                    requires
                        0 <= h < 1000,
                ;
            }
        }
        assert(-(h as int) <= 1000 * (a as int) <= h as int && -(h as int) <= 1000 * (num as int)
            <= h as int) by (nonlinear_arith)
            requires
                1_000_000 * ((a as int) * (a as int) + (num as int) * (num as int)) < ((h as int
                    + 1) * (h as int + 1)),
                0 <= h,
        ;
        assert(0 <= 1_000_000 * s * (a as int) <= (h as int) * (1000 * (s as int)) && -((
        h as int) * (1000 * (s as int))) <= 1_000_000 * s * (num as int) <= (h as int) * (1000 * (
        s as int))) by (nonlinear_arith)
            requires
                -(h as int) <= 1000 * (a as int) <= h as int,
                0 <= a,
                -(h as int) <= 1000 * (num as int) <= h as int,
                1 <= s <= 100_000,
                1 <= h,
        ;
        assert(0 <= 1_000_000 * (s as int) * (a as int) <= 100_000_000_000
            * 200_000_000_000int && -(100_000_000_000 * 700_000_000_000int) <= 1_000_000 * (
        s as int) * (num as int) <= 100_000_000_000 * 700_000_000_000int) by (nonlinear_arith)
            requires
                1 <= s <= 100_000,
                1 <= a <= 200_000_000_000int,
                -700_000_000_000int <= num <= 700_000_000_000int,
        ;
        crate::math::lemma_div_toward_zero_bound(
            1_000_000 * (s as int) * (a as int),
            h as int,
            1000 * (s as int),
        );
        crate::math::lemma_div_toward_zero_bound(
            1_000_000 * (s as int) * (num as int),
            h as int,
            1000 * (s as int),
        );
    }
    let vx_mag = crate::math::scale_div_i128(1_000_000 * s * a, h);
    let vy = crate::math::scale_div_i128(1_000_000 * s * num, h);
    let vx = if dx > 0 {
        vx_mag
    } else {
        -vx_mag
    };
    proof {
        crate::math::lemma_scaled_direction_magnitude(
            a as int,
            num as int,
            1000 * (speed as int),
        );
        assert(1000 * ((a as int) * (1000 * (speed as int))) == 1_000_000 * (s as int) * (
        a as int) && 1000 * ((num as int) * (1000 * (speed as int))) == 1_000_000 * (s as int) * (
        num as int)) by (nonlinear_arith)
            requires
                s == speed,
        ;
        assert((1000 * (speed as int)) * (1000 * (speed as int)) == 1_000_000 * ((speed as int) * (
        speed as int)) && 4 * (1000 * (speed as int)) == 4_000 * (speed as int))
            by (nonlinear_arith);
        assert((vx as int) * (vx as int) == (vx_mag as int) * (vx_mag as int))
            by (nonlinear_arith)
            requires
                vx == vx_mag || vx == -vx_mag,
        ;
    }
    Some(Velocity { x: vx as i64, y: vy as i64 })
}

/// For a reachable sideways target the solved arc retraces exactly to
/// the target. Write `A = gravity |dx|`, `N = speed^2 + r` or
/// `speed^2 - r` for the two arcs, and `H^2 = A^2 + N^2`; the exact
/// launch velocity is `vx = speed A / H` (signed like `dx`) and
/// `vy = speed N / H`, so the flight reaches horizontal displacement
/// `dx` at time `t = |dx| H / (speed A) > 0`. At that moment the height
/// `vy t - gravity t^2 / 2` equals `dy` exactly: substituting `t` and
/// clearing the positive denominator `2 speed^2 gravity` leaves the
/// identity below, which holds whenever `r` is an exact root of the
/// discriminant.
pub proof fn lemma_ballistic_round_trip(
    speed: int,
    gravity: int,
    dx: int,
    dy: int,
    r: int,
    num: int,
)
    requires
        speed > 0,
        gravity > 0,
        dx != 0,
        r >= 0,
        r * r == spec_ballistic_disc(speed, gravity, dx, dy),
        num == speed * speed + r || num == speed * speed - r,
    ensures
        2 * ((speed * speed) * num) - (gravity * dx) * (gravity * dx) - num * num == 2 * ((speed
            * speed) * (gravity * dy)),
{
    let s2 = speed * speed;
    assert((gravity * dx) * (gravity * dx) == (gravity * gravity) * (dx * dx)) by (nonlinear_arith);
    assert(gravity * (gravity * (dx * dx) + 2 * (dy * s2)) == (gravity * gravity) * (dx * dx) + 2
        * (gravity * (dy * s2))) by (nonlinear_arith);
    assert(gravity * (dy * s2) == s2 * (gravity * dy)) by (nonlinear_arith);
    if num == s2 + r {
        assert(num * num == s2 * s2 + 2 * (s2 * r) + r * r) by (nonlinear_arith)
            requires
                num == s2 + r,
        ;
        assert(2 * (s2 * num) == 2 * (s2 * s2) + 2 * (s2 * r)) by (nonlinear_arith)
            requires
                num == s2 + r,
        ;
    } else {
        assert(num * num == s2 * s2 - 2 * (s2 * r) + r * r) by (nonlinear_arith)
            requires
                num == s2 - r,
        ;
        assert(2 * (s2 * num) == 2 * (s2 * s2) - 2 * (s2 * r)) by (nonlinear_arith)
            requires
                num == s2 - r,
        ;
    }
    assert(2 * (s2 * num) - (gravity * dx) * (gravity * dx) - num * num == 2 * (s2 * (gravity
        * dy)));
}

/// Of the two arcs to the same reachable target, the high arc launches
/// at least as steeply: its tangent numerator dominates the low arc's in
/// magnitude, so cross-multiplied against the exact squared hypotenuses
/// the high arc's vertical share is at least the low arc's. The
/// executable components follow this ordering through the rounded
/// hypotenuse, up to the thousandth-scale rounding of the magnitude
/// bracket.
pub proof fn lemma_high_arc_is_steeper(speed: int, gravity: int, dx: int, dy: int)
    requires
        speed > 0,
        gravity > 0,
        dx != 0,
        spec_ballistic_disc(speed, gravity, dx, dy) >= 0,
    ensures
        ({
            let a = gravity * abs_int(dx);
            let nh = spec_arc_numerator(speed, gravity, dx, dy, true);
            let nl = spec_arc_numerator(speed, gravity, dx, dy, false);
            &&& nh >= nl
            &&& nh >= -nl
            &&& (nh * nh) * (a * a + nl * nl) >= (nl * nl) * (a * a + nh * nh)
        }),
{
    crate::math::lemma_isqrt_bounds(spec_ballistic_disc(speed, gravity, dx, dy));
    let a = gravity * abs_int(dx);
    let nh = spec_arc_numerator(speed, gravity, dx, dy, true);
    let nl = spec_arc_numerator(speed, gravity, dx, dy, false);
    assert(speed * speed > 0) by (nonlinear_arith)
        requires
            speed > 0,
    ;
    assert((nh * nh) * (a * a + nl * nl) >= (nl * nl) * (a * a + nh * nh)) by (nonlinear_arith)
        requires
            nh >= nl,
            nh >= -nl,
    ;
}

/// A projectile in flight: its velocity, the timer that removes it
/// after its first hit, and the one-way collision latch.
#[derive(Clone, Copy, PartialEq, Eq, Structural, Debug)]
pub struct Projectile {
    pub velocity: Velocity,
    pub despawn_timer: TimerMs,
    pub has_collided: bool,
}

/// How long a wool ball lingers after its first collision.
pub const WOOL_DESPAWN_MS: u32 = 2_000;

/// One tick of a projectile's lifecycle: any collision event involving
/// it latches `has_collided` (never the other way), a latched
/// projectile's despawn timer runs, and the projectile is removed once
/// that timer has finished.
pub fn handle_projectile_despawn(
    projectile: &mut Projectile,
    entity: u64,
    events: &Vec<CollisionPair>,
    dt_ms: u32,
) -> (despawn: bool)
    requires
        old(projectile).despawn_timer.wf(),
    ensures
        final(projectile).velocity == old(projectile).velocity,
        final(projectile).has_collided == (old(projectile).has_collided || spec_partners(
            events@,
            entity,
        ).len() > 0),
        final(projectile).despawn_timer.wf(),
        !final(projectile).has_collided ==> {
            &&& final(projectile).despawn_timer == old(projectile).despawn_timer
            &&& !despawn
        },
        final(projectile).has_collided ==> {
            &&& final(projectile).despawn_timer == old(projectile).despawn_timer.spec_ticked(
                dt_ms as int,
            )
            &&& despawn == final(projectile).despawn_timer.spec_finished()
        },
{
    let partners = crate::events::collisions_involving(events, entity);
    if partners.len() > 0 {
        projectile.has_collided = true;
    }
    if projectile.has_collided {
        projectile.despawn_timer.tick(dt_ms);
        projectile.despawn_timer.finished()
    } else {
        false
    }
}

/// The wool ball's launch speed, in world units per second.
pub const WOOL_SPEED: i64 = 1_000;

/// The gravity the wool ball is solved against, in world units per
/// second squared: standard gravity at thirty-two pixels per metre.
pub const WOOL_GRAVITY: i64 = 314;

/// How far from the player a wool ball spawns, along the launch
/// direction, in milliunits.
pub const WOOL_STANDOFF_MILLI: i64 = 32_000;

/// The computation behind a click: solve the low arc from the player to
/// the crosshair at the wool ball's speed and gravity. An unreachable
/// crosshair spawns nothing. Otherwise the projectile starts a fixed
/// standoff from the player along the launch direction, with the solved
/// velocity, an armed despawn timer and the collision latch clear; the
/// returned pair is its spawn position in milliunits.
pub fn spawn_projectile_on_click(
    player_x_milli: i64,
    player_y_milli: i64,
    target_x_milli: i64,
    target_y_milli: i64,
) -> (spawned: Option<(i64, i64, Projectile)>)
    requires
        -1_000_000_000 <= player_x_milli <= 1_000_000_000,
        -1_000_000_000 <= player_y_milli <= 1_000_000_000,
        -1_000_000_000 <= target_x_milli <= 1_000_000_000,
        -1_000_000_000 <= target_y_milli <= 1_000_000_000,
    ensures
        ({
            let px = div_toward_zero(player_x_milli as int, 1000);
            let py = div_toward_zero(player_y_milli as int, 1000);
            let tx = div_toward_zero(target_x_milli as int, 1000);
            let ty = div_toward_zero(target_y_milli as int, 1000);
            let solved = spec_solve_ballistic(
                px,
                py,
                tx,
                ty,
                WOOL_SPEED as int,
                WOOL_GRAVITY as int,
                false,
            );
            &&& (spawned is Some <==> (tx == px || spec_ballistic_disc(
                WOOL_SPEED as int,
                WOOL_GRAVITY as int,
                tx - px,
                ty - py,
            ) >= 0))
            &&& spawned matches Some((sx, sy, p)) ==> {
                &&& Some((p.velocity.x as int, p.velocity.y as int)) == solved
                &&& ({
                    let offset = crate::math::spec_scaled_direction(
                        p.velocity.x as int,
                        p.velocity.y as int,
                        WOOL_STANDOFF_MILLI as int,
                    );
                    sx == player_x_milli + offset.0 && sy == player_y_milli + offset.1
                })
                &&& p.despawn_timer == (TimerMs { elapsed_ms: 0, duration_ms: WOOL_DESPAWN_MS })
                &&& !p.has_collided
            }
        }),
{
    let px = crate::math::scale_div(player_x_milli, 1000);
    let py = crate::math::scale_div(player_y_milli, 1000);
    let tx = crate::math::scale_div(target_x_milli, 1000);
    let ty = crate::math::scale_div(target_y_milli, 1000);
    match solve_ballistic_velocity(px, py, tx, ty, WOOL_SPEED, WOOL_GRAVITY, false) {
        Some(velocity) => {
            let (ox, oy) = crate::math::scaled_direction(
                velocity.x,
                velocity.y,
                WOOL_STANDOFF_MILLI,
            );
            let projectile = Projectile {
                velocity,
                despawn_timer: TimerMs::new(WOOL_DESPAWN_MS),
                has_collided: false,
            };
            Some((player_x_milli + ox, player_y_milli + oy, projectile))
        },
        None => None,
    }
}

} // verus!
