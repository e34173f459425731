//! Small arithmetic helpers shared by the simulation: division that
//! truncates toward zero, an integer square root, and a fixed-point
//! approximation of the sine wave used by the shaking-tile effect.

use vstd::prelude::*;

verus! {

/// Division of a possibly negative numerator by a positive denominator,
/// truncating toward zero (the rounding the simulation uses everywhere
/// it scales a velocity or an offset).
pub open spec fn div_toward_zero(num: int, den: int) -> int {
    if num >= 0 {
        num / den
    } else {
        -((-num) / den)
    }
}

/// Truncating-toward-zero scaling step: `num / den` with the sign of `num`.
pub fn scale_div(num: i64, den: i64) -> (r: i64)
    requires
        1 <= den,
        -0x7fff_ffff_ffff_ffff <= num,
    ensures
        r == div_toward_zero(num as int, den as int),
        num >= 0 ==> 0 <= r <= num,
        num < 0 ==> num <= r <= 0,
{
    if num >= 0 {
        num / den
    } else {
        -((-num) / den)
    }
}

/// Truncating-toward-zero scaling step over the wide integers the
/// reflection and normalization formulas compute in.
pub fn scale_div_i128(num: i128, den: i128) -> (r: i128)
    requires
        1 <= den,
        -0x7fff_ffff_ffff_ffff_ffff_ffff_ffff_ffff <= num,
    ensures
        r == div_toward_zero(num as int, den as int),
        num >= 0 ==> 0 <= r <= num,
        num < 0 ==> num <= r <= 0,
{
    if num >= 0 {
        num / den
    } else {
        -((-num) / den)
    }
}

/// Largest component a direction vector may have.
pub const DIR_LIMIT: i64 = 2_000_000_000_000;

/// Largest magnitude a vector may be scaled to.
pub const MAG_LIMIT: i64 = 1_000_000_000;

/// A vector rescaled to a target magnitude: the direction normalized and
/// multiplied by `mag`, each component truncating toward zero; the zero
/// vector stays zero. The square root is taken of the squared length
/// scaled up by a thousand squared, so the floor costs at most a
/// thousandth of the result rather than a whole unit of the length.
pub open spec fn spec_scaled_direction(dx: int, dy: int, mag: int) -> (int, int) {
    let norm = spec_isqrt(1_000_000 * (dx * dx + dy * dy));
    if norm == 0 {
        (0, 0)
    } else {
        (div_toward_zero(1000 * (dx * mag), norm), div_toward_zero(1000 * (dy * mag), norm))
    }
}

/// Rescales a vector to the given magnitude, up to rounding; the zero
/// vector stays at rest.
pub fn scaled_direction(dx: i64, dy: i64, mag: i64) -> (r: (i64, i64))
    requires
        -DIR_LIMIT <= dx <= DIR_LIMIT,
        -DIR_LIMIT <= dy <= DIR_LIMIT,
        0 <= mag <= MAG_LIMIT,
    ensures
        (r.0 as int, r.1 as int) == spec_scaled_direction(dx as int, dy as int, mag as int),
        -mag <= r.0 <= mag,
        -mag <= r.1 <= mag,
        1_000_000 * (r.0 * r.0 + r.1 * r.1) <= 1_002_001 * (mag * mag),
        dx != 0 || dy != 0 ==> r.0 * r.0 + r.1 * r.1 >= mag * mag - 4 * mag,
{
    proof {
        assert(0 <= (dx as int) * (dx as int) <= DIR_LIMIT * DIR_LIMIT && 0 <= (dy as int) * (
        dy as int) <= DIR_LIMIT * DIR_LIMIT) by (nonlinear_arith)
            requires
                -DIR_LIMIT <= dx <= DIR_LIMIT,
                -DIR_LIMIT <= dy <= DIR_LIMIT,
        ;
    }
    let dx2 = (dx as i128) * (dx as i128);
    let dy2 = (dy as i128) * (dy as i128);
    let norm = isqrt_u128((1_000_000 * (dx2 + dy2)) as u128);
    if norm == 0 {
        proof {
            assert((norm as int + 1) * (norm as int + 1) == 1) by (nonlinear_arith)
                requires
                    norm == 0,
            ;
            assert(dx == 0 && dy == 0) by (nonlinear_arith)
                requires
                    dx2 == (dx as int) * (dx as int),
                    dy2 == (dy as int) * (dy as int),
                    1_000_000 * (dx2 + dy2) < 1,
            ;
        }
        (0, 0)
    } else {
        proof {
            assert((norm as int) * (norm as int) >= 1) by (nonlinear_arith)
                requires
                    1 <= norm,
            ;
            assert(dx != 0 || dy != 0) by (nonlinear_arith)
                requires
                    dx2 == (dx as int) * (dx as int),
                    dy2 == (dy as int) * (dy as int),
                    1 <= 1_000_000 * (dx2 + dy2),
            ;
            lemma_scaled_direction_magnitude(dx as int, dy as int, mag as int);
            assert(norm as int <= 3_000_000_000_000_000int) by (nonlinear_arith)
                requires
                    0 <= norm,
                    (norm as int) * (norm as int) <= 1_000_000 * (DIR_LIMIT * DIR_LIMIT
                        + DIR_LIMIT * DIR_LIMIT),
            ;
            assert(-(norm as int) <= 1000 * (dx as int) <= norm as int && -(norm as int) <= 1000
                * (dy as int) <= norm as int) by (nonlinear_arith)
                requires
                    1_000_000 * ((dx as int) * (dx as int) + (dy as int) * (dy as int)) < (
                    norm as int + 1) * (norm as int + 1),
                    0 <= norm,
            ;
            assert(-((norm as int) * (mag as int)) <= 1000 * ((dx as int) * (mag as int)) <= (
            norm as int) * (mag as int) && -((norm as int) * (mag as int)) <= 1000 * ((dy as int)
                * (mag as int)) <= (norm as int) * (mag as int) && (norm as int) * (mag as int)
                <= 3_000_000_000_000_000_000_000_000int) by (nonlinear_arith)
                requires
                    -(norm as int) <= 1000 * (dx as int) <= norm as int,
                    -(norm as int) <= 1000 * (dy as int) <= norm as int,
                    0 <= mag <= MAG_LIMIT,
                    0 <= norm as int <= 3_000_000_000_000_000int,
            ;
            lemma_div_toward_zero_bound(
                1000 * ((dx as int) * (mag as int)),
                norm as int,
                mag as int,
            );
            lemma_div_toward_zero_bound(
                1000 * ((dy as int) * (mag as int)),
                norm as int,
                mag as int,
            );
        }
        let sx = scale_div_i128(1000 * ((dx as i128) * (mag as i128)), norm as i128);
        let sy = scale_div_i128(1000 * ((dy as i128) * (mag as i128)), norm as i128);
        (sx as i64, sy as i64)
    }
}

/// Rescaling a non-zero vector really lands its squared magnitude in a
/// narrow bracket of the target: at most a thousandth over, and at most
/// a few units of rounding under.
#[verifier::rlimit(100)]
pub proof fn lemma_scaled_direction_magnitude(dx: int, dy: int, mag: int)
    requires
        0 <= mag,
        dx != 0 || dy != 0,
    ensures
        ({
            let (sx, sy) = spec_scaled_direction(dx, dy, mag);
            &&& 1_000_000 * (sx * sx + sy * sy) <= 1_002_001 * (mag * mag)
            &&& sx * sx + sy * sy >= mag * mag - 4 * mag
        }),
{
    let norm2 = dx * dx + dy * dy;
    assert(norm2 >= 1) by (nonlinear_arith)
        requires
            norm2 == dx * dx + dy * dy,
            dx != 0 || dy != 0,
    ;
    lemma_isqrt_bounds(1_000_000 * norm2);
    let h = spec_isqrt(1_000_000 * norm2);
    assert(h >= 1000) by (nonlinear_arith)
        requires
            1_000_000 * norm2 < (h + 1) * (h + 1),
            norm2 >= 1,
            h >= 0,
    ;
    let nx = 1000 * (dx * mag);
    let ny = 1000 * (dy * mag);
    let sx = div_toward_zero(nx, h);
    let sy = div_toward_zero(ny, h);
    lemma_div_toward_zero_close(nx, h);
    lemma_div_toward_zero_close(ny, h);
    assert(-h <= 1000 * dx <= h && -h <= 1000 * dy <= h) by (nonlinear_arith)
        requires
            1_000_000 * (dx * dx + dy * dy) < (h + 1) * (h + 1),
            0 <= h,
    ;
    assert(-(h * mag) <= nx <= h * mag && -(h * mag) <= ny <= h * mag) by (nonlinear_arith)
        requires
            nx == 1000 * (dx * mag),
            ny == 1000 * (dy * mag),
            -h <= 1000 * dx <= h,
            -h <= 1000 * dy <= h,
            0 <= mag,
    ;
    assert((h * sx) * (h * sx) <= nx * nx && (h * sx) * (h * sx) >= nx * nx - 2 * ((h * h) * mag))
        by (nonlinear_arith)
        requires
            nx >= 0 ==> nx - h < h * sx <= nx && 0 <= h * sx,
            nx < 0 ==> nx <= h * sx < nx + h && h * sx <= 0,
            -(h * mag) <= nx <= h * mag,
            1 <= h,
            0 <= mag,
    ;
    assert((h * sy) * (h * sy) <= ny * ny && (h * sy) * (h * sy) >= ny * ny - 2 * ((h * h) * mag))
        by (nonlinear_arith)
        requires
            ny >= 0 ==> ny - h < h * sy <= ny && 0 <= h * sy,
            ny < 0 ==> ny <= h * sy < ny + h && h * sy <= 0,
            -(h * mag) <= ny <= h * mag,
            1 <= h,
            0 <= mag,
    ;
    assert(nx * nx + ny * ny == (1_000_000 * (mag * mag)) * norm2) by (nonlinear_arith)
        requires
            nx == 1000 * (dx * mag),
            ny == 1000 * (dy * mag),
            norm2 == dx * dx + dy * dy,
    ;
    assert((h * sx) * (h * sx) + (h * sy) * (h * sy) == (h * h) * (sx * sx + sy * sy))
        by (nonlinear_arith);
    assert((h * h) * (sx * sx + sy * sy) <= (1_000_000 * (mag * mag)) * norm2);
    assert((1_000_000 * (mag * mag)) * norm2 <= (mag * mag) * ((h + 1) * (h + 1)))
        by (nonlinear_arith)
        requires
            1_000_000 * norm2 < (h + 1) * (h + 1),
            0 <= mag,
    ;
    assert(1_000_000 * ((h + 1) * (h + 1)) <= 1_002_001 * (h * h)) by (nonlinear_arith)
        requires
            1000 <= h,
    ;
    assert(1_000_000 * (sx * sx + sy * sy) <= 1_002_001 * (mag * mag)) by (nonlinear_arith)
        requires
            (h * h) * (sx * sx + sy * sy) <= (mag * mag) * ((h + 1) * (h + 1)),
            1_000_000 * ((h + 1) * (h + 1)) <= 1_002_001 * (h * h),
            1 <= h,
            0 <= mag,
    ;
    assert((h * h) * (sx * sx + sy * sy) >= (1_000_000 * (mag * mag)) * norm2 - 4 * ((h * h)
        * mag));
    assert((1_000_000 * (mag * mag)) * norm2 >= (mag * mag) * (h * h)) by (nonlinear_arith)
        requires
            h * h <= 1_000_000 * norm2,
            0 <= mag,
    ;
    assert(sx * sx + sy * sy >= mag * mag - 4 * mag) by (nonlinear_arith)
        requires
            (h * h) * (sx * sx + sy * sy) >= (mag * mag) * (h * h) - 4 * ((h * h) * mag),
            1 <= h,
    ;
}

/// A truncated quotient respects any bound the numerator's magnitude
/// respects after scaling by the denominator.
pub proof fn lemma_div_toward_zero_bound(num: int, den: int, bound: int)
    requires
        1 <= den,
        0 <= bound,
        -(den * bound) <= num <= den * bound,
    ensures
        -bound <= div_toward_zero(num, den) <= bound,
{
    if num >= 0 {
        vstd::arithmetic::div_mod::lemma_div_is_ordered(num, den * bound, den);
        vstd::arithmetic::div_mod::lemma_div_multiples_vanish(bound, den);
        vstd::arithmetic::div_mod::lemma_div_pos_is_pos(num, den);
    } else {
        vstd::arithmetic::div_mod::lemma_div_is_ordered(-num, den * bound, den);
        vstd::arithmetic::div_mod::lemma_div_multiples_vanish(bound, den);
        vstd::arithmetic::div_mod::lemma_div_pos_is_pos(-num, den);
    }
}

/// The truncated quotient, scaled back up, lands within one denominator
/// of the numerator, on the numerator's side of zero.
pub proof fn lemma_div_toward_zero_close(num: int, den: int)
    requires
        1 <= den,
    ensures
        num >= 0 ==> num - den < den * div_toward_zero(num, den) <= num && 0 <= den
            * div_toward_zero(num, den),
        num < 0 ==> num <= den * div_toward_zero(num, den) < num + den && den * div_toward_zero(
            num,
            den,
        ) <= 0,
{
    if num >= 0 {
        vstd::arithmetic::div_mod::lemma_fundamental_div_mod(num, den);
        vstd::arithmetic::div_mod::lemma_mod_division_less_than_divisor(num, den);
        vstd::arithmetic::div_mod::lemma_div_pos_is_pos(num, den);
        assert(den * (num / den) >= 0) by (nonlinear_arith)
            requires
                den >= 1,
                num / den >= 0,
        ;
    } else {
        vstd::arithmetic::div_mod::lemma_fundamental_div_mod(-num, den);
        vstd::arithmetic::div_mod::lemma_mod_division_less_than_divisor(-num, den);
        vstd::arithmetic::div_mod::lemma_div_pos_is_pos(-num, den);
        assert(den * div_toward_zero(num, den) == -(den * ((-num) / den))) by (nonlinear_arith)
            requires
                div_toward_zero(num, den) == -((-num) / den),
        ;
        assert(den * ((-num) / den) >= 0) by (nonlinear_arith)
            requires
                den >= 1,
                (-num) / den >= 0,
        ;
    }
}

/// Half a turn, in milliradians.
pub const PI_MILLI: u64 = 3_142;

/// A full turn, in milliradians.
pub const TWO_PI_MILLI: u64 = 6_284;

/// Bhaskara's sine approximation on the first half-turn, in thousandths:
/// `16 x (pi - x) / (5 pi^2 - 4 x (pi - x))` with `x` in milliradians.
pub open spec fn spec_sin_half_milli(x: int) -> int {
    (1000 * (16 * (x * (PI_MILLI - x)))) / (5 * PI_MILLI * PI_MILLI - 4 * (x * (PI_MILLI - x)))
}

/// The sine wave over the whole circle, in thousandths: the angle is
/// folded into one turn and the second half-turn is the mirrored negative
/// of the first.
pub open spec fn spec_sin_milli(a: int) -> int {
    let m = a % (TWO_PI_MILLI as int);
    if m < PI_MILLI {
        spec_sin_half_milli(m)
    } else {
        -spec_sin_half_milli(m - PI_MILLI)
    }
}

/// The product `x * (pi - x)` peaks at the quarter turn.
proof fn lemma_sin_arch_peak(x: int)
    by (nonlinear_arith)
    requires
        0 <= x <= PI_MILLI,
    ensures
        0 <= x * (PI_MILLI - x) <= 1571 * 1571,
{
    assert((x - 1571) * (x - 1571) >= 0);
}

/// Sine of a non-negative angle in milliradians, in thousandths.
pub fn sin_milli(a: u64) -> (s: i64)
    ensures
        s == spec_sin_milli(a as int),
        -1000 <= s <= 1000,
{
    let m = a % TWO_PI_MILLI;
    let x = if m < PI_MILLI {
        m
    } else {
        m - PI_MILLI
    };
    proof {
        lemma_sin_arch_peak(x as int);
    }
    let q = x * (PI_MILLI - x);
    let num = 1000 * (16 * q);
    let den = 5 * PI_MILLI * PI_MILLI - 4 * q;
    assert(num <= 1000 * den) by (nonlinear_arith)
        requires
            0 <= q <= 1571 * 1571,
            num == 1000 * (16 * q),
            den == 5 * PI_MILLI * PI_MILLI - 4 * q,
    ;
    let mag = num / den;
    assert(mag <= 1000) by (nonlinear_arith)
        requires
            0 < den,
            0 <= num <= 1000 * den,
            mag == num / den,
    ;
    if m < PI_MILLI {
        mag as i64
    } else {
        -(mag as i64)
    }
}

/// Floor of the square root, as a mathematical function: the largest
/// integer whose square does not exceed the argument.
pub open spec fn spec_isqrt(n: int) -> int
    decreases n,
{
    if n <= 0 {
        0
    } else if (spec_isqrt(n - 1) + 1) * (spec_isqrt(n - 1) + 1) <= n {
        spec_isqrt(n - 1) + 1
    } else {
        spec_isqrt(n - 1)
    }
}

/// The defining bounds of the integer square root.
pub proof fn lemma_isqrt_bounds(n: int)
    requires
        n >= 0,
    ensures
        0 <= spec_isqrt(n),
        spec_isqrt(n) * spec_isqrt(n) <= n,
        n < (spec_isqrt(n) + 1) * (spec_isqrt(n) + 1),
    decreases n,
{
    if n > 0 {
        lemma_isqrt_bounds(n - 1);
        let s = spec_isqrt(n - 1);
        if (s + 1) * (s + 1) <= n {
            assert(n - 1 < (s + 1) * (s + 1));
            assert(n == (s + 1) * (s + 1));
            assert((s + 1) * (s + 1) < (s + 2) * (s + 2)) by (nonlinear_arith)
                requires
                    s >= 0,
            ;
        }
    }
}

/// Only one non-negative integer sits between the two square bounds, so
/// any witness of them is the square root.
pub proof fn lemma_isqrt_unique(n: int, r: int)
    requires
        0 <= r,
        r * r <= n,
        n < (r + 1) * (r + 1),
    ensures
        r == spec_isqrt(n),
{
    lemma_isqrt_bounds(n);
    let s = spec_isqrt(n);
    assert(r == s) by (nonlinear_arith)
        requires
            0 <= r,
            0 <= s,
            r * r <= n,
            n < (r + 1) * (r + 1),
            s * s <= n,
            n < (s + 1) * (s + 1),
    ;
}

/// Two to the 63rd power, the starting upper bound of the square-root search.
pub const SQRT_HI: u128 = 0x8000_0000_0000_0000;

/// Two to the 126th power, the largest argument the square root accepts.
pub const SQRT_ARG_MAX: u128 = 0x4000_0000_0000_0000_0000_0000_0000_0000;

/// Floor of the square root.
pub fn isqrt_u128(n: u128) -> (r: u128)
    requires
        n < SQRT_ARG_MAX,
    ensures
        r * r <= n,
        n < (r + 1) * (r + 1),
        r == spec_isqrt(n as int),
        r < SQRT_HI,
{
    if n == 0 {
        proof {
            lemma_isqrt_unique(0, 0);
        }
        return 0;
    }
    let mut lo: u128 = 0;
    let mut hi: u128 = SQRT_HI;
    while hi - lo > 1
        invariant
            lo < hi,
            hi <= SQRT_HI,
            lo * lo <= n,
            n < hi * hi,
        decreases hi - lo,
    {
        let mid = lo + (hi - lo) / 2;
        assert(lo < mid < hi);
        assert(mid * mid < SQRT_HI * SQRT_HI) by (nonlinear_arith)
            requires
                0 <= mid < SQRT_HI,
        ;
        if mid * mid <= n {
            lo = mid;
        } else {
            hi = mid;
        }
    }
    proof {
        lemma_isqrt_unique(n as int, lo as int);
    }
    lo
}

} // verus!
