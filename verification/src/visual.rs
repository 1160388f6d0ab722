//! The visual mapping: what circle a magnitude is drawn as.
//!
//! The radius grows with the size of the magnitude and is never negative. The
//! colour comes from the square of the magnitude, which flattens small values
//! and stretches large ones; each channel is held to a range of its own.

use vstd::prelude::*;
use crate::grid::Position;

verus! {

/// The fixed-point scale: a stored value `v` stands for the number `v / UNIT`.
pub const UNIT: i64 = 1_000_000;

/// How many times the size of the magnitude the radius is.
pub const RADIUS_FACTOR: i64 = 8;

/// Least value of the red channel, 0.6 on the fixed-point scale.
pub const RED_FLOOR: i64 = 600_000;

/// Greatest value of the blue channel, 0.6 on the fixed-point scale.
pub const BLUE_CEILING: i64 = 600_000;

/// A filled circle for the canvas: its centre in whole units, its radius and
/// the three channels of its colour on the fixed-point scale.
#[derive(Clone, Copy, Debug, PartialEq, Eq, Structural)]
pub struct Circle {
    pub x: i64,
    pub y: i64,
    pub radius: i64,
    pub red: i64,
    pub green: i64,
    pub blue: i64,
}

/// `n` held between `start` and `end`, whichever of the two is the smaller.
pub open spec fn clamp_value(n: int, start: int, end: int) -> int {
    if start <= end {
        if n < start {
            start
        } else if n > end {
            end
        } else {
            n
        }
    } else {
        if n < end {
            end
        } else if n > start {
            start
        } else {
            n
        }
    }
}

/// The square of a magnitude on the fixed-point scale, rounded down.
pub open spec fn squared(mag: int) -> int {
    (mag * mag) / (UNIT as int)
}

/// The size of a magnitude.
pub open spec fn size(mag: int) -> int {
    if mag < 0 {
        -mag
    } else {
        mag
    }
}

/// Radius of the circle of a magnitude: `RADIUS_FACTOR` times its size, held
/// to what 64 bits can carry.
pub open spec fn radius_length(mag: int) -> int {
    clamp_value(size(mag) * RADIUS_FACTOR, 0, i64::MAX as int)
}

/// Red channel of a magnitude: one minus its square, held to `[0.6, 1]`.
pub open spec fn red_level(mag: int) -> int {
    clamp_value(UNIT - squared(mag), RED_FLOOR as int, UNIT as int)
}

/// Green channel of a magnitude: its square, held to `[0, 1]`.
pub open spec fn green_level(mag: int) -> int {
    clamp_value(squared(mag), 0, UNIT as int)
}

/// Blue channel of a magnitude: its square, held to `[0, 0.6]`.
pub open spec fn blue_level(mag: int) -> int {
    clamp_value(squared(mag), 0, BLUE_CEILING as int)
}

/// The circle that a magnitude at a position is drawn as.
pub open spec fn circle_at(pos: Position, mag: i64) -> Circle {
    Circle {
        x: pos.x,
        y: pos.y,
        radius: radius_length(mag as int) as i64,
        red: red_level(mag as int) as i64,
        green: green_level(mag as int) as i64,
        blue: blue_level(mag as int) as i64,
    }
}

/// Calls `nannou::math::clamp` on 128-bit integers. Believed of it, from its
/// source: with `start <= end` it returns `start` for an `n` below `start`,
/// `end` for an `n` above `end`, and `n` itself otherwise; with the two ends
/// swapped it does the same between `end` and `start`.
#[verifier::external_body]
fn clamp(n: i128, start: i128, end: i128) -> (r: i128)
    ensures
        r == clamp_value(n as int, start as int, end as int),
{
    nannou::math::clamp(n, start, end)
}

/// Computes the square of a magnitude on the fixed-point scale.
pub fn square(mag: i64) -> (c: i128)
    ensures
        c == squared(mag as int),
        c >= 0,
{
    let m: i128 = mag as i128;
    assert(0 <= m * m <= 0x4000_0000_0000_0000_0000_0000_0000_0000) by (nonlinear_arith)
        requires
            -0x8000_0000_0000_0000 <= m <= 0x7fff_ffff_ffff_ffff,
    ;
    (m * m) / (UNIT as i128)
}

/// Computes the radius of the circle of a magnitude.
pub fn radius(mag: i64) -> (r: i64)
    ensures
        r == radius_length(mag as int),
        r >= 0,
{
    let m: i128 = mag as i128;
    let s: i128 = if m < 0 {
        -m
    } else {
        m
    };
    let k: i128 = RADIUS_FACTOR as i128;
    assert(0 <= s * k <= 0x4_0000_0000_0000_0000) by (nonlinear_arith)
        requires
            0 <= s <= 0x8000_0000_0000_0000,
            k == 8,
    ;
    let r: i128 = clamp(s * k, 0, i64::MAX as i128);
    r as i64
}

/// Computes the red channel of a magnitude.
pub fn red(mag: i64) -> (r: i64)
    ensures
        r == red_level(mag as int),
        RED_FLOOR <= r <= UNIT,
{
    let c: i128 = square(mag);
    let r: i128 = clamp((UNIT as i128) - c, RED_FLOOR as i128, UNIT as i128);
    r as i64
}

/// Computes the green channel of a magnitude.
pub fn green(mag: i64) -> (r: i64)
    ensures
        r == green_level(mag as int),
        0 <= r <= UNIT,
{
    let c: i128 = square(mag);
    let r: i128 = clamp(c, 0, UNIT as i128);
    r as i64
}

/// Computes the blue channel of a magnitude.
pub fn blue(mag: i64) -> (r: i64)
    ensures
        r == blue_level(mag as int),
        0 <= r <= BLUE_CEILING,
{
    let c: i128 = square(mag);
    let r: i128 = clamp(c, 0, BLUE_CEILING as i128);
    r as i64
}

/// Computes the circle that a magnitude at a position is drawn as.
pub fn circle(pos: Position, mag: i64) -> (c: Circle)
    ensures
        c == circle_at(pos, mag),
        c.x == pos.x,
        c.y == pos.y,
        c.radius == radius_length(mag as int),
        c.red == red_level(mag as int),
        c.green == green_level(mag as int),
        c.blue == blue_level(mag as int),
{
    Circle {
        x: pos.x,
        y: pos.y,
        radius: radius(mag),
        red: red(mag),
        green: green(mag),
        blue: blue(mag),
    }
}

/// The radius is never negative, does not shrink when the magnitude grows in
/// size, and is exactly `RADIUS_FACTOR` times the size where that fits.
pub proof fn lemma_radius(a: int, b: int)
    requires
        size(a) <= size(b),
    ensures
        0 <= radius_length(a) <= radius_length(b) <= i64::MAX,
        size(a) * RADIUS_FACTOR <= i64::MAX ==> radius_length(a) == size(a) * RADIUS_FACTOR,
        radius_length(a) == radius_length(-a),
{
}

/// The fixed-point square is the true square rounded down to a whole unit:
/// it is never negative and falls short of the true square by less than one
/// unit of the scale.
pub proof fn lemma_squared_rounding(mag: int)
    ensures
        0 <= squared(mag),
        squared(mag) * UNIT <= mag * mag < (squared(mag) + 1) * UNIT,
        squared(mag) == squared(-mag),
{
    let u = UNIT as int;
    let q = mag * mag;
    assert(0 <= q && q == (-mag) * (-mag)) by (nonlinear_arith)
        requires
            q == mag * mag,
    ;
    assert(0 <= q / u && (q / u) * u <= q < (q / u + 1) * u) by (nonlinear_arith)
        requires
            0 <= q,
            u == 1_000_000,
    ;
}

/// Whatever the magnitude, each channel lies in its own range: red in
/// `[0.6, 1]`, green in `[0, 1]`, blue in `[0, 0.6]`.
pub proof fn lemma_colour_ranges(mag: int)
    ensures
        RED_FLOOR <= red_level(mag) <= UNIT,
        0 <= green_level(mag) <= UNIT,
        0 <= blue_level(mag) <= BLUE_CEILING,
{
}

/// The fields of the circle of a magnitude are its radius and channels, with
/// nothing lost in 64 bits.
pub proof fn lemma_circle_at(pos: Position, mag: i64)
    ensures
        circle_at(pos, mag).x == pos.x,
        circle_at(pos, mag).y == pos.y,
        circle_at(pos, mag).radius == radius_length(mag as int),
        circle_at(pos, mag).red == red_level(mag as int),
        circle_at(pos, mag).green == green_level(mag as int),
        circle_at(pos, mag).blue == blue_level(mag as int),
        0 <= circle_at(pos, mag).radius,
        RED_FLOOR <= circle_at(pos, mag).red <= UNIT,
        0 <= circle_at(pos, mag).green <= UNIT,
        0 <= circle_at(pos, mag).blue <= BLUE_CEILING,
{
    lemma_radius(mag as int, mag as int);
    lemma_colour_ranges(mag as int);
}

} // verus!
