//! The per-tick terrain behaviour systems: the falling-tile state
//! machine, the bouncy-platform recoil, the damage-tile handler and the
//! one-way-platform collision filter.

use vstd::prelude::*;
use crate::math::{div_toward_zero, spec_sin_milli};
use crate::physics::{Velocity, VEL_LIMIT};
use crate::player::{Health, Invincibility, spec_damage_seq, TILE_INVINCIBILITY_MS};
use crate::tiles::{
    CollisionGroups, FallingState, FallingTile, ALL_GROUPS, ALL_BUT_ONE_WAY, PLAYER_GROUP,
    TileProperties, TileType, BouncyPlatform,
};
use crate::timer::TimerMs;

verus! {

/// Positions live within this bound, in milliunits.
pub const POS_LIMIT: i64 = 1_000_000_000_000_000;

/// A falling tile below this height is gone for good, in milliunits.
pub const FALLEN_FLOOR_MILLI: i64 = -500_000;

/// Recomputes the player's collision filter every tick: descending
/// players collide with one-way platforms, ascending or level players
/// pass through them.
pub fn one_way_platform_collision_system(velocity: &Velocity) -> (groups: CollisionGroups)
    ensures
        velocity.y < 0 ==> groups == (CollisionGroups {
            memberships: ALL_GROUPS,
            filters: ALL_GROUPS,
        }),
        velocity.y >= 0 ==> groups == (CollisionGroups {
            memberships: PLAYER_GROUP,
            filters: ALL_BUT_ONE_WAY,
        }),
{
    if velocity.y < 0 {
        CollisionGroups { memberships: ALL_GROUPS, filters: ALL_GROUPS }
    } else {
        CollisionGroups { memberships: PLAYER_GROUP, filters: ALL_BUT_ONE_WAY }
    }
}

/// Arms a stable falling tile the player's movement report touched this
/// tick; a tile in any later state never re-triggers.
pub fn trigger_falling_tiles_system(
    tile: &mut FallingTile,
    props: &TileProperties,
    hit_by_player: bool,
)
    ensures
        hit_by_player && props.tile_type == TileType::Falling && old(tile).state
            == FallingState::Stable ==> *final(tile) == (FallingTile {
            state: FallingState::Triggered,
            ..*old(tile)
        }),
        !(hit_by_player && props.tile_type == TileType::Falling && old(tile).state
            == FallingState::Stable) ==> *final(tile) == *old(tile),
{
    if hit_by_player {
        if props.tile_type == TileType::Falling && tile.state == FallingState::Stable {
            tile.state = FallingState::Triggered;
        }
    }
}

/// The shake angle at a moment of the shake: twenty radians spread over
/// the shake duration, in milliradians.
pub open spec fn spec_shake_angle(timer: TimerMs) -> int {
    20_000 * (timer.elapsed_ms as int) / (timer.duration_ms as int)
}

/// The horizontal shake displacement around the tile's original
/// position: a sine of the shake angle scaled by the shake intensity.
pub open spec fn spec_shake_offset(timer: TimerMs, intensity_milli: int) -> int {
    div_toward_zero(spec_sin_milli(spec_shake_angle(timer)) * intensity_milli, 1000)
}

/// The falling tile after one tick of its state machine.
pub open spec fn spec_falling_tile_after(t: FallingTile, y_milli: int, dt_ms: int) -> FallingTile {
    match t.state {
        FallingState::Triggered => FallingTile {
            state: FallingState::Shaking,
            shake_timer: TimerMs { elapsed_ms: 0, duration_ms: t.shake_timer.duration_ms },
            ..t
        },
        FallingState::Shaking => if t.shake_timer.spec_just_finishes(dt_ms) {
            FallingTile {
                state: FallingState::Falling,
                shake_timer: t.shake_timer.spec_ticked(dt_ms),
                fall_timer: TimerMs { elapsed_ms: 0, duration_ms: t.fall_timer.duration_ms },
                ..t
            }
        } else {
            FallingTile { shake_timer: t.shake_timer.spec_ticked(dt_ms), ..t }
        },
        FallingState::Falling => if t.fall_timer.spec_just_finishes(dt_ms) || y_milli
            < FALLEN_FLOOR_MILLI {
            FallingTile {
                state: FallingState::Fallen,
                fall_timer: t.fall_timer.spec_ticked(dt_ms),
                ..t
            }
        } else {
            FallingTile { fall_timer: t.fall_timer.spec_ticked(dt_ms), ..t }
        },
        _ => t,
    }
}

/// The tile's horizontal position after one tick: only a shaking tile
/// moves, and it oscillates around its original position.
pub open spec fn spec_falling_x_after(t: FallingTile, x_milli: int, dt_ms: int) -> int {
    if t.state is Shaking {
        t.original_x_milli + spec_shake_offset(t.shake_timer.spec_ticked(dt_ms), t.shake_intensity_milli as int)
    } else {
        x_milli
    }
}

/// Whether this tick removes the tile from the simulation: the fall
/// timer completing, or the tile dropping below the hard floor,
/// whichever comes first.
pub open spec fn spec_falling_despawns(t: FallingTile, y_milli: int, dt_ms: int) -> bool {
    t.state is Falling && (t.fall_timer.spec_just_finishes(dt_ms) || y_milli < FALLEN_FLOOR_MILLI)
}

/// One tick of the falling-tile state machine. A triggered tile starts
/// shaking only on the tick after its trigger; a shaking tile oscillates
/// until its shake timer completes and then falls; a falling tile is
/// destroyed when its fall timer completes or it drops below the floor.
/// The returned flag asks the caller to remove the entity outright.
pub fn falling_tiles_system(
    tile: &mut FallingTile,
    x_milli: &mut i64,
    y_milli: i64,
    dt_ms: u32,
) -> (despawn: bool)
    requires
        old(tile).wf(),
        old(tile).shake_timer.duration_ms >= 1,
        -POS_LIMIT <= old(tile).original_x_milli <= POS_LIMIT,
    ensures
        *final(tile) == spec_falling_tile_after(*old(tile), y_milli as int, dt_ms as int),
        *final(x_milli) == spec_falling_x_after(*old(tile), *old(x_milli) as int, dt_ms as int),
        despawn == spec_falling_despawns(*old(tile), y_milli as int, dt_ms as int),
        final(tile).wf(),
        old(tile).state is Shaking ==> *final(x_milli) - old(tile).original_x_milli
            <= old(tile).shake_intensity_milli && old(tile).original_x_milli - *final(x_milli)
            <= old(tile).shake_intensity_milli,
{
    match tile.state {
        FallingState::Triggered => {
            tile.state = FallingState::Shaking;
            tile.shake_timer.reset();
            false
        },
        FallingState::Shaking => {
            let just_finished = tile.shake_timer.tick(dt_ms);
            let angle = 20_000u64 * (tile.shake_timer.elapsed_ms as u64)
                / (tile.shake_timer.duration_ms as u64);
            let s = crate::math::sin_milli(angle);
            proof {
                assert(-1_000_000_000 <= s * tile.shake_intensity_milli <= 1_000_000_000)
                    by (nonlinear_arith)
                    requires
                        -1000 <= s <= 1000,
                        0 <= tile.shake_intensity_milli <= 1_000_000,
                ;
            }
            let offset = crate::math::scale_div(s * tile.shake_intensity_milli, 1000);
            proof {
                assert(-(1000 * (tile.shake_intensity_milli as int)) <= s as int * (
                tile.shake_intensity_milli as int) <= 1000 * (tile.shake_intensity_milli as int))
                    by (nonlinear_arith)
                    requires
                        -1000 <= s <= 1000,
                        0 <= tile.shake_intensity_milli,
                ;
                crate::math::lemma_div_toward_zero_bound(
                    s as int * tile.shake_intensity_milli as int,
                    1000,
                    tile.shake_intensity_milli as int,
                );
            }
            *x_milli = tile.original_x_milli + offset;
            if just_finished {
                tile.state = FallingState::Falling;
                tile.fall_timer.reset();
            }
            false
        },
        FallingState::Falling => {
            let just_finished = tile.fall_timer.tick(dt_ms);
            if just_finished || y_milli < FALLEN_FLOOR_MILLI {
                tile.state = FallingState::Fallen;
                true
            } else {
                false
            }
        },
        _ => false,
    }
}

/// A falling tile the state machine can still act on: sound timers with
/// positive durations, and a timer that has not outrun its own state.
pub open spec fn spec_falling_live(t: FallingTile) -> bool {
    &&& t.wf()
    &&& t.shake_timer.duration_ms >= 1
    &&& t.fall_timer.duration_ms >= 1
    &&& t.state is Shaking ==> !t.shake_timer.spec_finished()
    &&& t.state is Falling ==> !t.fall_timer.spec_finished()
}

/// How far the tile still is from its removal: a rank that every tick of
/// the state machine strictly decreases until the tile has fallen.
pub open spec fn spec_falling_measure(t: FallingTile) -> int {
    match t.state {
        FallingState::Stable => 4 + t.shake_timer.duration_ms + t.fall_timer.duration_ms,
        FallingState::Triggered => 3 + t.shake_timer.duration_ms + t.fall_timer.duration_ms,
        FallingState::Shaking => 2 + (t.shake_timer.duration_ms - t.shake_timer.elapsed_ms)
            + t.fall_timer.duration_ms,
        FallingState::Falling => 1 + (t.fall_timer.duration_ms - t.fall_timer.elapsed_ms),
        FallingState::Fallen => 0,
    }
}

/// Once triggered, a tile always reaches `Fallen`: every tick of real
/// time strictly shrinks its rank, it passes through `Shaking` on the
/// very next tick after `Triggered`, never skipping it, and only the
/// tick that reaches `Fallen` removes the entity.
pub proof fn lemma_falling_tile_progress(t: FallingTile, y_milli: int, dt_ms: int)
    requires
        spec_falling_live(t),
        t.state !is Stable,
        t.state !is Fallen,
        1 <= dt_ms,
    ensures
        spec_falling_live(spec_falling_tile_after(t, y_milli, dt_ms)),
        spec_falling_measure(spec_falling_tile_after(t, y_milli, dt_ms)) < spec_falling_measure(t),
        t.state is Triggered ==> spec_falling_tile_after(t, y_milli, dt_ms).state is Shaking,
        spec_falling_despawns(t, y_milli, dt_ms) == spec_falling_tile_after(
            t,
            y_milli,
            dt_ms,
        ).state is Fallen,
{
}

/// Recoil of a bouncy platform away from the player: the platform's own
/// velocity becomes the difference of the two velocities, normalized and
/// scaled by the bounce force; a zero difference leaves it at rest.
pub open spec fn spec_bounce_velocity(platform_v: Velocity, player_v: Velocity, force: int) -> (
    int,
    int,
) {
    crate::math::spec_scaled_direction(
        platform_v.x - player_v.x,
        platform_v.y - player_v.y,
        force,
    )
}

/// Largest bounce force the simulation accepts, in milliunits per second.
pub const BOUNCE_FORCE_LIMIT: i64 = 1_000_000_000;

/// Recomputes a bouncy platform's travelling velocity on player contact.
/// The new velocity points along the difference of the two velocities
/// and carries the magnitude of the bounce force — within a thousandth
/// over and a few milliunits under, the squared-magnitude bracket below
/// — unless the difference is zero, which leaves the platform at rest.
/// It moves the platform, never the player.
pub fn bouncy_platforms_system(platform: &mut BouncyPlatform, player_velocity: &Velocity)
    requires
        old(platform).velocity.in_bounds(),
        player_velocity.in_bounds(),
        0 <= old(platform).bounce_force_milli <= BOUNCE_FORCE_LIMIT,
    ensures
        ({
            let (bx, by) = spec_bounce_velocity(
                old(platform).velocity,
                *player_velocity,
                old(platform).bounce_force_milli as int,
            );
            final(platform).velocity.x == bx && final(platform).velocity.y == by
        }),
        -old(platform).bounce_force_milli <= final(platform).velocity.x <= old(
            platform,
        ).bounce_force_milli,
        -old(platform).bounce_force_milli <= final(platform).velocity.y <= old(
            platform,
        ).bounce_force_milli,
        1_000_000 * final(platform).velocity.norm_sq() <= 1_002_001 * (old(
            platform,
        ).bounce_force_milli * old(platform).bounce_force_milli),
        old(platform).velocity != *player_velocity ==> final(platform).velocity.norm_sq() >= old(
            platform,
        ).bounce_force_milli * old(platform).bounce_force_milli - 4 * old(
            platform,
        ).bounce_force_milli,
        final(platform).bounce_force_milli == old(platform).bounce_force_milli,
        final(platform).original_x_milli == old(platform).original_x_milli,
        final(platform).original_y_milli == old(platform).original_y_milli,
{
    let (bx, by) = crate::math::scaled_direction(
        platform.velocity.x - player_velocity.x,
        platform.velocity.y - player_velocity.y,
        platform.bounce_force_milli,
    );
    platform.velocity = Velocity { x: bx, y: by };
}

/// One damage-tile contact from the player's movement report: the damage
/// dealt and the engine's contact normal, a unit vector in thousandths.
#[derive(Clone, Copy, PartialEq, Eq, Structural, Debug)]
pub struct DamageContact {
    pub damage_amount: u32,
    pub normal_x_milli: i64,
    pub normal_y_milli: i64,
}

impl DamageContact {
    /// The contact normal is a unit vector at the thousandths scale.
    pub open spec fn wf(self) -> bool {
        self.normal_x_milli * self.normal_x_milli + self.normal_y_milli * self.normal_y_milli
            == 1_000_000
    }
}

/// The x component of the knock-back: the velocity reflected about the
/// contact normal, damped to ninety percent.
pub open spec fn spec_reflected_x(vx: int, vy: int, nx: int, ny: int) -> int {
    let d = vx * nx + vy * ny;
    div_toward_zero(9 * (vx - div_toward_zero(2 * d * nx, 1_000_000)), 10)
}

/// The y component of the knock-back.
pub open spec fn spec_reflected_y(vx: int, vy: int, nx: int, ny: int) -> int {
    let d = vx * nx + vy * ny;
    div_toward_zero(9 * (vy - div_toward_zero(2 * d * ny, 1_000_000)), 10)
}

/// The player's velocity after the knock-back of each contact in turn.
pub open spec fn spec_velocity_after_contacts(vx: int, vy: int, contacts: Seq<DamageContact>) -> (
    int,
    int,
)
    decreases contacts.len(),
{
    if contacts.len() == 0 {
        (vx, vy)
    } else {
        let c = contacts[0];
        spec_velocity_after_contacts(
            spec_reflected_x(vx, vy, c.normal_x_milli as int, c.normal_y_milli as int),
            spec_reflected_y(vx, vy, c.normal_x_milli as int, c.normal_y_milli as int),
            contacts.drop_first(),
        )
    }
}

/// Knock-backs fold from the front, so one more contact at the back is
/// one more reflection of the folded velocity.
proof fn lemma_velocity_fold_push(vx: int, vy: int, contacts: Seq<DamageContact>, c: DamageContact)
    ensures
        ({
            let (ax, ay) = spec_velocity_after_contacts(vx, vy, contacts);
            spec_velocity_after_contacts(vx, vy, contacts.push(c)) == (
                spec_reflected_x(ax, ay, c.normal_x_milli as int, c.normal_y_milli as int),
                spec_reflected_y(ax, ay, c.normal_x_milli as int, c.normal_y_milli as int),
            )
        }),
    decreases contacts.len(),
{
    let pushed = contacts.push(c);
    if contacts.len() == 0 {
        assert(pushed[0] == c);
        assert(pushed.drop_first() =~= Seq::<DamageContact>::empty());
        assert(spec_velocity_after_contacts(vx, vy, pushed) == (
            spec_reflected_x(vx, vy, c.normal_x_milli as int, c.normal_y_milli as int),
            spec_reflected_y(vx, vy, c.normal_x_milli as int, c.normal_y_milli as int),
        )) by {
            reveal_with_fuel(spec_velocity_after_contacts, 2);
        }
        assert(spec_velocity_after_contacts(vx, vy, contacts) == (vx, vy));
    } else {
        assert(pushed[0] == contacts[0]);
        assert(pushed.drop_first() =~= contacts.drop_first().push(c));
        let c0 = contacts[0];
        let rx = spec_reflected_x(vx, vy, c0.normal_x_milli as int, c0.normal_y_milli as int);
        let ry = spec_reflected_y(vx, vy, c0.normal_x_milli as int, c0.normal_y_milli as int);
        lemma_velocity_fold_push(rx, ry, contacts.drop_first(), c);
        assert(spec_velocity_after_contacts(vx, vy, pushed) == spec_velocity_after_contacts(
            rx,
            ry,
            contacts.drop_first().push(c),
        ));
        assert(spec_velocity_after_contacts(vx, vy, contacts) == spec_velocity_after_contacts(
            rx,
            ry,
            contacts.drop_first(),
        ));
    }
}

/// Reflection about a unit normal is an isometry, and the ninety-percent
/// damping shrinks it, so the knock-back never grows the velocity's
/// magnitude past the simulation's bound.
pub proof fn lemma_reflect_preserves_bound(vx: int, vy: int, nx: int, ny: int, b: int)
    requires
        18 <= b,
        vx * vx + vy * vy <= b * b,
        nx * nx + ny * ny == 1_000_000,
    ensures
        ({
            let rx = spec_reflected_x(vx, vy, nx, ny);
            let ry = spec_reflected_y(vx, vy, nx, ny);
            &&& rx * rx + ry * ry <= b * b
            &&& -b <= rx <= b
            &&& -b <= ry <= b
        }),
{
    let d = vx * nx + vy * ny;
    let ax = 1_000_000 * vx - 2 * d * nx;
    let ay = 1_000_000 * vy - 2 * d * ny;
    assert(ax * ax == 1_000_000_000_000 * (vx * vx) - 4_000_000 * (vx * (d * nx)) + 4 * ((d * nx)
        * (d * nx))) by (nonlinear_arith)
        requires
            ax == 1_000_000 * vx - 2 * d * nx,
    ;
    assert(ay * ay == 1_000_000_000_000 * (vy * vy) - 4_000_000 * (vy * (d * ny)) + 4 * ((d * ny)
        * (d * ny))) by (nonlinear_arith)
        requires
            ay == 1_000_000 * vy - 2 * d * ny,
    ;
    assert((d * nx) * (d * nx) + (d * ny) * (d * ny) == 1_000_000 * (d * d)) by (nonlinear_arith)
        requires
            nx * nx + ny * ny == 1_000_000,
    ;
    assert(vx * (d * nx) + vy * (d * ny) == d * d) by (nonlinear_arith)
        requires
            d == vx * nx + vy * ny,
    ;
    assert(ax * ax + ay * ay == 1_000_000_000_000 * (vx * vx + vy * vy));
    assert(ay * ay >= 0 && ax * ax >= 0) by (nonlinear_arith);
    assert(-(1_000_000 * b) <= ax <= 1_000_000 * b && -(1_000_000 * b) <= ay <= 1_000_000 * b)
        by (nonlinear_arith)
        requires
            ax * ax + ay * ay <= 1_000_000_000_000 * (b * b),
            ax * ax >= 0,
            ay * ay >= 0,
            0 <= b,
    ;
    let tx = div_toward_zero(2 * d * nx, 1_000_000);
    let ty = div_toward_zero(2 * d * ny, 1_000_000);
    crate::math::lemma_div_toward_zero_close(2 * d * nx, 1_000_000);
    crate::math::lemma_div_toward_zero_close(2 * d * ny, 1_000_000);
    let ex = 2 * d * nx - 1_000_000 * tx;
    let ey = 2 * d * ny - 1_000_000 * ty;
    assert(-1_000_000 < ex < 1_000_000);
    assert(-1_000_000 < ey < 1_000_000);
    let sx = vx - tx;
    let sy = vy - ty;
    assert(1_000_000 * sx == ax + ex);
    assert(1_000_000 * sy == ay + ey);
    assert(sx * sx + sy * sy <= (b + 2) * (b + 2)) by (nonlinear_arith)
        requires
            1_000_000 * sx == ax + ex,
            1_000_000 * sy == ay + ey,
            -1_000_000 < ex < 1_000_000,
            -1_000_000 < ey < 1_000_000,
            -(1_000_000 * b) <= ax <= 1_000_000 * b,
            -(1_000_000 * b) <= ay <= 1_000_000 * b,
            ax * ax + ay * ay <= 1_000_000_000_000 * (b * b),
            0 <= b,
    ;
    let rx = div_toward_zero(9 * sx, 10);
    let ry = div_toward_zero(9 * sy, 10);
    crate::math::lemma_div_toward_zero_close(9 * sx, 10);
    crate::math::lemma_div_toward_zero_close(9 * sy, 10);
    assert((10 * rx) * (10 * rx) <= (9 * sx) * (9 * sx) && (10 * ry) * (10 * ry) <= (9 * sy) * (9
        * sy)) by (nonlinear_arith)
        requires
            9 * sx >= 0 ==> 0 <= 10 * rx <= 9 * sx,
            9 * sx < 0 ==> 9 * sx <= 10 * rx <= 0,
            9 * sy >= 0 ==> 0 <= 10 * ry <= 9 * sy,
            9 * sy < 0 ==> 9 * sy <= 10 * ry <= 0,
    ;
    assert(rx * rx + ry * ry <= b * b) by (nonlinear_arith)
        requires
            (10 * rx) * (10 * rx) <= (9 * sx) * (9 * sx),
            (10 * ry) * (10 * ry) <= (9 * sy) * (9 * sy),
            sx * sx + sy * sy <= (b + 2) * (b + 2),
            18 <= b,
    ;
    assert(-b <= rx <= b && -b <= ry <= b) by (nonlinear_arith)
        requires
            rx * rx + ry * ry <= b * b,
            0 <= b,
    ;
    assert(rx == spec_reflected_x(vx, vy, nx, ny));
    assert(ry == spec_reflected_y(vx, vy, nx, ny));
}

/// Applies one contact's knock-back to the player's velocity:
/// `v' = (v - 2 (v . n) n) * 0.9` about the unit contact normal.
fn reflect_velocity(velocity: &mut Velocity, nx: i64, ny: i64)
    requires
        old(velocity).in_norm_bounds(),
        nx * nx + ny * ny == 1_000_000,
    ensures
        final(velocity).x == spec_reflected_x(
            old(velocity).x as int,
            old(velocity).y as int,
            nx as int,
            ny as int,
        ),
        final(velocity).y == spec_reflected_y(
            old(velocity).x as int,
            old(velocity).y as int,
            nx as int,
            ny as int,
        ),
        final(velocity).in_norm_bounds(),
{
    proof {
        crate::physics::lemma_norm_bounds_components(*old(velocity));
        lemma_reflect_preserves_bound(
            old(velocity).x as int,
            old(velocity).y as int,
            nx as int,
            ny as int,
            VEL_LIMIT as int,
        );
        assert(-1_000 <= nx <= 1_000 && -1_000 <= ny <= 1_000) by (nonlinear_arith)
            requires
                nx * nx + ny * ny == 1_000_000,
        ;
    }
    let vx = velocity.x as i128;
    let vy = velocity.y as i128;
    proof {
        assert(-(2_000_000_000_000_000int) <= vx * (nx as int) <= 2_000_000_000_000_000int && -(
        2_000_000_000_000_000int) <= vy * (ny as int) <= 2_000_000_000_000_000int)
            by (nonlinear_arith)
            requires
                -VEL_LIMIT <= vx <= VEL_LIMIT,
                -VEL_LIMIT <= vy <= VEL_LIMIT,
                -1_000 <= nx <= 1_000,
                -1_000 <= ny <= 1_000,
        ;
    }
    let d = vx * (nx as i128) + vy * (ny as i128);
    proof {
        assert(-(8_000_000_000_000_000_000int) <= d * (nx as int) <= 8_000_000_000_000_000_000int
            && -(8_000_000_000_000_000_000int) <= d * (ny as int) <= 8_000_000_000_000_000_000int)
            by (nonlinear_arith)
            requires
                -(4_000_000_000_000_000int) <= d <= 4_000_000_000_000_000int,
                -1_000 <= nx <= 1_000,
                -1_000 <= ny <= 1_000,
        ;
    }
    let tx = crate::math::scale_div_i128(2 * (d * (nx as i128)), 1_000_000);
    let ty = crate::math::scale_div_i128(2 * (d * (ny as i128)), 1_000_000);
    let rx = crate::math::scale_div_i128(9 * (vx - tx), 10);
    let ry = crate::math::scale_div_i128(9 * (vy - ty), 10);
    proof {
        assert(2 * ((d as int) * (nx as int)) == 2 * (d as int) * (nx as int)) by (nonlinear_arith);
        assert(2 * ((d as int) * (ny as int)) == 2 * (d as int) * (ny as int)) by (nonlinear_arith);
        assert(rx == spec_reflected_x(
            old(velocity).x as int,
            old(velocity).y as int,
            nx as int,
            ny as int,
        ));
        assert(ry == spec_reflected_y(
            old(velocity).x as int,
            old(velocity).y as int,
            nx as int,
            ny as int,
        ));
    }
    velocity.x = rx as i64;
    velocity.y = ry as i64;
}

/// Damage-tile contact handling for one tick. If the player is
/// invincible at the start of the tick, damage tiles are fully inert:
/// no damage, no knock-back, no new immunity. Otherwise every reported
/// contact subtracts its damage (saturating at zero), reflects the
/// player's velocity off the contact normal at ninety percent, and
/// leaves the player invincible for the damage-tile duration. Two
/// contacts in one tick both land: the immunity only takes effect on
/// the next tick.
pub fn damage_platforms_system(
    health: &mut Health,
    velocity: &mut Velocity,
    invincibility: &mut Option<Invincibility>,
    contacts: &Vec<DamageContact>,
)
    requires
        old(health).wf(),
        old(velocity).in_norm_bounds(),
        forall|i: int| 0 <= i < contacts@.len() ==> contacts@[i].wf(),
    ensures
        final(health).wf(),
        final(velocity).in_norm_bounds(),
        (*old(invincibility)) is Some ==> *final(health) == *old(health) && *final(velocity)
            == *old(velocity) && *final(invincibility) == *old(invincibility),
        (*old(invincibility)) is None ==> {
            &&& final(health).max == old(health).max
            &&& final(health).current == spec_damage_seq(
                old(health).current as int,
                contacts@.map_values(|c: DamageContact| c.damage_amount as int),
            )
            &&& ({
                let (rx, ry) = spec_velocity_after_contacts(
                    old(velocity).x as int,
                    old(velocity).y as int,
                    contacts@,
                );
                final(velocity).x == rx && final(velocity).y == ry
            })
            &&& contacts@.len() > 0 ==> *final(invincibility) == Some(
                Invincibility { remaining_ms: TILE_INVINCIBILITY_MS },
            )
            &&& contacts@.len() == 0 ==> (*final(invincibility)) is None
        },
{
    if invincibility.is_some() {
        return ;
    }
    let ghost amounts = contacts@.map_values(|c: DamageContact| c.damage_amount as int);
    let n = contacts.len();
    let mut i: usize = 0;
    while i < n
        invariant
            i <= n,
            n == contacts@.len(),
            forall|j: int| 0 <= j < contacts@.len() ==> contacts@[j].wf(),
            amounts == contacts@.map_values(|c: DamageContact| c.damage_amount as int),
            health.wf(),
            health.max == old(health).max,
            health.current == spec_damage_seq(
                old(health).current as int,
                amounts.subrange(0, i as int),
            ),
            velocity.in_norm_bounds(),
            ({
                let (rx, ry) = spec_velocity_after_contacts(
                    old(velocity).x as int,
                    old(velocity).y as int,
                    contacts@.subrange(0, i as int),
                );
                velocity.x == rx && velocity.y == ry
            }),
        decreases n - i,
    {
        let c = contacts[i];
        proof {
            assert(amounts.subrange(0, i as int + 1) =~= amounts.subrange(0, i as int).push(
                c.damage_amount as int,
            ));
            assert(contacts@.subrange(0, i as int + 1) =~= contacts@.subrange(0, i as int).push(c));
            crate::player::lemma_damage_seq_push(
                old(health).current as int,
                amounts.subrange(0, i as int),
                c.damage_amount as int,
            );
            lemma_velocity_fold_push(
                old(velocity).x as int,
                old(velocity).y as int,
                contacts@.subrange(0, i as int),
                c,
            );
        }
        crate::player::apply_damage(health, c.damage_amount);
        reflect_velocity(velocity, c.normal_x_milli, c.normal_y_milli);
        i = i + 1;
    }
    proof {
        assert(amounts.subrange(0, n as int) =~= amounts);
        assert(contacts@.subrange(0, n as int) =~= contacts@);
    }
    if n > 0 {
        *invincibility = Some(Invincibility::new(TILE_INVINCIBILITY_MS));
    }
}

} // verus!
