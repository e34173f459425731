//! Gravity accumulation and the kinematic integrator: the only place a
//! velocity becomes a per-tick displacement request.

use vstd::prelude::*;
use crate::math::div_toward_zero;

verus! {

/// Velocities and positions are measured in milliunits (thousandths of a
/// world unit); this bound keeps every intermediate product inside `i64`.
pub const VEL_LIMIT: i64 = 1_000_000_000_000;

/// Largest mass the simulation accepts, in kilograms.
pub const MASS_LIMIT: u32 = 1_000_000;

/// Gravitational acceleration, in milliunits per second squared per kilogram.
pub const GRAVITY_MILLI: i64 = 9_810;

/// Marker for entities whose vertical velocity accumulates gravity.
pub struct AffectedByGravity;

/// Scalar multiplier for the gravity force.
pub struct Mass {
    pub kilograms: u32,
}

impl Default for Mass {
    /// The mass every character starts with.
    fn default() -> (r: Self)
        ensures
            r.kilograms == 100,
    {
        Mass { kilograms: 100 }
    }
}

/// A velocity in milliunits per second.
#[derive(Clone, Copy, PartialEq, Eq, Structural, Debug)]
pub struct Velocity {
    pub x: i64,
    pub y: i64,
}

impl Default for Velocity {
    /// An entity spawns at rest.
    fn default() -> (r: Self)
        ensures
            r.x == 0 && r.y == 0,
    {
        Velocity { x: 0, y: 0 }
    }
}

impl Velocity {
    /// Both components within the simulation's velocity bound.
    pub open spec fn in_bounds(self) -> bool {
        -VEL_LIMIT <= self.x <= VEL_LIMIT && -VEL_LIMIT <= self.y <= VEL_LIMIT
    }

    /// The squared Euclidean magnitude.
    pub open spec fn norm_sq(self) -> int {
        self.x * self.x + self.y * self.y
    }

    /// Magnitude within the simulation's velocity bound; this is the
    /// invariant the knock-back reflection preserves.
    pub open spec fn in_norm_bounds(self) -> bool {
        self.norm_sq() <= VEL_LIMIT * VEL_LIMIT
    }
}

/// A magnitude bound confines both components.
pub proof fn lemma_norm_bounds_components(v: Velocity)
    requires
        v.in_norm_bounds(),
    ensures
        v.in_bounds(),
{
    assert(-VEL_LIMIT <= v.x <= VEL_LIMIT && -VEL_LIMIT <= v.y <= VEL_LIMIT) by (nonlinear_arith)
        requires
            v.x * v.x + v.y * v.y <= VEL_LIMIT * VEL_LIMIT,
    ;
}

/// A per-tick translation request handed to the movement engine, in
/// milliunits.
#[derive(Clone, Copy, PartialEq, Eq, Structural, Debug)]
pub struct Translation {
    pub x: i64,
    pub y: i64,
}

/// The per-tick time step `min(0.9 * dt, 1.0)`, expressed as a fraction of
/// `10_000` (`dt` itself arrives in milliseconds).
pub open spec fn spec_step_fraction(dt_ms: int) -> int {
    if 9 * dt_ms < 10_000 {
        9 * dt_ms
    } else {
        10_000
    }
}

/// Computes the smoothed, clamped step fraction for this tick.
pub fn step_fraction(dt_ms: u64) -> (t: u64)
    ensures
        t == spec_step_fraction(dt_ms as int),
        t <= 10_000,
{
    if dt_ms > 1_111 {
        10_000
    } else {
        9 * dt_ms
    }
}

/// How much downward velocity one tick of gravity adds, in milliunits per
/// second.
pub open spec fn spec_gravity_delta(kilograms: int, dt_ms: int) -> int {
    (GRAVITY_MILLI * kilograms * spec_step_fraction(dt_ms)) / 10_000
}

/// One tick of gravity never exceeds this many milliunits per second.
pub const GRAVITY_DELTA_LIMIT: i64 = 9_810_000_000;

/// One tick of gravity is downward and bounded.
pub proof fn lemma_gravity_delta_bounds(kilograms: int, dt_ms: int)
    requires
        0 <= kilograms <= MASS_LIMIT,
        0 <= dt_ms,
    ensures
        0 <= spec_gravity_delta(kilograms, dt_ms) <= GRAVITY_DELTA_LIMIT,
{
    let t = spec_step_fraction(dt_ms);
    assert(0 <= (GRAVITY_MILLI * kilograms) * t <= 10_000 * (GRAVITY_DELTA_LIMIT as int))
        by (nonlinear_arith)
        requires
            0 <= kilograms <= 1_000_000,
            0 <= t <= 10_000,
            GRAVITY_MILLI == 9_810,
            GRAVITY_DELTA_LIMIT == 9_810_000_000,
    ;
    vstd::arithmetic::div_mod::lemma_div_pos_is_pos((GRAVITY_MILLI * kilograms) * t, 10_000);
    vstd::arithmetic::div_mod::lemma_div_is_ordered(
        (GRAVITY_MILLI * kilograms) * t,
        10_000 * (GRAVITY_DELTA_LIMIT as int),
        10_000,
    );
    vstd::arithmetic::div_mod::lemma_div_multiples_vanish(GRAVITY_DELTA_LIMIT as int, 10_000);
}

/// Gravity accumulation: an airborne entity's vertical velocity drops by
/// `GRAVITY * mass * min(0.9 * dt, 1.0)`; a grounded entity is untouched.
pub fn gravity_system(velocity: &mut Velocity, mass: &Mass, grounded: bool, dt_ms: u64)
    requires
        mass.kilograms <= MASS_LIMIT,
        old(velocity).in_bounds(),
    ensures
        final(velocity).x == old(velocity).x,
        !grounded ==> final(velocity).y
            == old(velocity).y - spec_gravity_delta(mass.kilograms as int, dt_ms as int),
        grounded ==> *final(velocity) == *old(velocity),
{
    if !grounded {
        let t = step_fraction(dt_ms);
        proof {
            assert((GRAVITY_MILLI * (mass.kilograms as int)) * (t as int)
                <= (GRAVITY_MILLI * (MASS_LIMIT as int)) * 10_000) by (nonlinear_arith)
                requires
                    0 <= mass.kilograms <= MASS_LIMIT,
                    0 <= t <= 10_000,
            ;
        }
        let delta = GRAVITY_MILLI * (mass.kilograms as i64) * (t as i64) / 10_000;
        velocity.y = velocity.y - delta;
    }
}

/// What the kinematic integrator asks the engine to move an entity by:
/// `velocity * min(0.9 * dt, 1.0)`, each axis truncated toward zero.
pub open spec fn spec_displacement(v: Velocity, dt_ms: int) -> Translation {
    Translation {
        x: div_toward_zero(v.x * spec_step_fraction(dt_ms), 10_000) as i64,
        y: div_toward_zero(v.y * spec_step_fraction(dt_ms), 10_000) as i64,
    }
}

/// The kinematic integrator: converts a velocity into this tick's
/// translation request. No other part of the simulation turns velocity
/// into position.
pub fn kinematic_character_movement_system(velocity: &Velocity, dt_ms: u64) -> (d: Translation)
    requires
        velocity.in_bounds(),
    ensures
        d == spec_displacement(*velocity, dt_ms as int),
        -VEL_LIMIT <= d.x <= VEL_LIMIT,
        -VEL_LIMIT <= d.y <= VEL_LIMIT,
{
    let t = step_fraction(dt_ms) as i64;
    proof {
        assert(velocity.x * t <= VEL_LIMIT * 10_000 && -(VEL_LIMIT * 10_000) <= velocity.x * t)
            by (nonlinear_arith)
            requires
                -VEL_LIMIT <= velocity.x <= VEL_LIMIT,
                0 <= t <= 10_000,
        ;
        assert(velocity.y * t <= VEL_LIMIT * 10_000 && -(VEL_LIMIT * 10_000) <= velocity.y * t)
            by (nonlinear_arith)
            requires
                -VEL_LIMIT <= velocity.y <= VEL_LIMIT,
                0 <= t <= 10_000,
        ;
    }
    let dx = crate::math::scale_div(velocity.x * t, 10_000);
    let dy = crate::math::scale_div(velocity.y * t, 10_000);
    Translation { x: dx, y: dy }
}

} // verus!
