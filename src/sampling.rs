//! The random source and the rejection samplers built on it. Every draw is an
//! integer `k` in `0..range`, standing for the uniform value `k / range` in
//! `[0, 1)`; the samplers work on those integers, so that a candidate point is
//! an exact lattice point and its acceptance test is exact.

use rand::rngs::StdRng;
use rand::Rng;
use vstd::prelude::*;

verus! {

/// rand's seedable standard generator, carried opaque through the samplers so
/// that a fixed seed reproduces the same draws.
#[verifier::external_type_specification]
#[verifier::external_body]
pub struct ExStdRng(StdRng);

/// Relies on rand's `Rng::gen_range` over the generator: for the range
/// `0..range` it returns a value inside it, and panics only on an empty range.
#[verifier::external_body]
fn draw_below(rng: &mut StdRng, range: i32) -> (k: i32)
    requires
        range > 0,
    ensures
        0 <= k < range,
{
    rng.gen_range(0..range)
}

/// A value `numerator / denominator` in `[0, 1)`.
#[derive(Clone, Copy, Debug, PartialEq, Eq, Structural)]
pub struct Fraction {
    pub numerator: i32,
    pub denominator: i32,
}

impl Fraction {
    /// The value lies in `[0, 1)`.
    pub open spec fn wf(self) -> bool {
        0 <= self.numerator < self.denominator
    }
}

/// Draws a uniform value in `[0, 1)` on the grid of step `1 / range`.
pub fn draw_fraction(rng: &mut StdRng, range: i32) -> (f: Fraction)
    requires
        range > 0,
    ensures
        f.wf(),
        f.denominator == range,
{
    let k = draw_below(rng, range);
    Fraction { numerator: k, denominator: range }
}

/// The point `(x, y, z) / scale`.
#[derive(Clone, Copy, Debug, PartialEq, Eq, Structural)]
pub struct LatticePoint {
    pub x: i32,
    pub y: i32,
    pub z: i32,
    pub scale: i32,
}

/// The coordinate `2 * (k / range) - 1`, scaled by `range`.
pub open spec fn centered(k: int, range: int) -> int {
    2 * k - range
}

/// The point lies strictly inside the unit sphere.
pub open spec fn in_unit_ball(p: LatticePoint) -> bool {
    p.x * p.x + p.y * p.y + p.z * p.z < p.scale * p.scale
}

/// A coordinate that a draw in `0..range` can produce.
pub open spec fn lattice_coord(c: int, range: int) -> bool {
    exists|k: int| 0 <= k < range && c == #[trigger] centered(k, range)
}

/// The square of an `i32`, which always fits in an `i128` with room for sums.
fn square(v: i32) -> (r: i128)
    ensures
        r == v * v,
        0 <= r <= 0x4000_0000_0000_0000,
{
    let w = v as i128;
    assert(0 <= w * w <= 0x4000_0000_0000_0000) by (nonlinear_arith)
        requires
            -0x8000_0000 <= w <= 0x7fff_ffff,
    ;
    w * w
}

/// The candidate of the unit-sphere sampler for the draws `kx, ky, kz`: the
/// point `2 * (kx, ky, kz) / range - (1, 1, 1)`, kept when strictly inside the
/// unit sphere and rejected otherwise.
pub fn ball_candidate(kx: i32, ky: i32, kz: i32, range: i32) -> (r: Option<LatticePoint>)
    requires
        0 <= kx < range,
        0 <= ky < range,
        0 <= kz < range,
    ensures
        ({
            let p = LatticePoint {
                x: centered(kx as int, range as int) as i32,
                y: centered(ky as int, range as int) as i32,
                z: centered(kz as int, range as int) as i32,
                scale: range,
            };
            r == if in_unit_ball(p) {
                Some(p)
            } else {
                None::<LatticePoint>
            }
        }),
{
    let x = (2 * kx as i64 - range as i64) as i32;
    let y = (2 * ky as i64 - range as i64) as i32;
    let z = (2 * kz as i64 - range as i64) as i32;
    let p = LatticePoint { x, y, z, scale: range };
    let sum = square(x) + square(y) + square(z);
    if sum < square(range) {
        Some(p)
    } else {
        None
    }
}

/// The candidate of the unit-disk sampler for the draws `kx, ky`: the point
/// `2 * (kx, ky, 0) / range - (1, 1, 0)`, kept when strictly inside the unit
/// disk and rejected otherwise.
pub fn disk_candidate(kx: i32, ky: i32, range: i32) -> (r: Option<LatticePoint>)
    requires
        0 <= kx < range,
        0 <= ky < range,
    ensures
        ({
            let p = LatticePoint {
                x: centered(kx as int, range as int) as i32,
                y: centered(ky as int, range as int) as i32,
                z: 0,
                scale: range,
            };
            r == if in_unit_ball(p) {
                Some(p)
            } else {
                None::<LatticePoint>
            }
        }),
{
    let x = (2 * kx as i64 - range as i64) as i32;
    let y = (2 * ky as i64 - range as i64) as i32;
    let p = LatticePoint { x, y, z: 0, scale: range };
    let sum = square(x) + square(y);
    if sum < square(range) {
        Some(p)
    } else {
        None
    }
}

/// One round of the unit-sphere sampler: three draws in `0..range`, for x, y
/// and z in that order, and their candidate. A caller redraws until it gets a
/// point.
pub fn try_unit_ball(rng: &mut StdRng, range: i32) -> (r: Option<LatticePoint>)
    requires
        range > 0,
    ensures
        r matches Some(p) ==> {
            &&& in_unit_ball(p)
            &&& p.scale == range
            &&& lattice_coord(p.x as int, range as int)
            &&& lattice_coord(p.y as int, range as int)
            &&& lattice_coord(p.z as int, range as int)
        },
{
    let kx = draw_below(rng, range);
    let ky = draw_below(rng, range);
    let kz = draw_below(rng, range);
    ball_candidate(kx, ky, kz, range)
}

/// One round of the unit-disk sampler: two draws in `0..range`, for x and y in
/// that order, and their candidate. A caller redraws until it gets a point.
pub fn try_unit_disk(rng: &mut StdRng, range: i32) -> (r: Option<LatticePoint>)
    requires
        range > 0,
    ensures
        r matches Some(p) ==> {
            &&& in_unit_ball(p)
            &&& p.scale == range
            &&& p.z == 0
            &&& lattice_coord(p.x as int, range as int)
            &&& lattice_coord(p.y as int, range as int)
        },
{
    let kx = draw_below(rng, range);
    let ky = draw_below(rng, range);
    disk_candidate(kx, ky, range)
}

} // verus!
