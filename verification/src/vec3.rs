//! Fixed-point 3D points and vectors, with the exact integer geometry the
//! controller needs: differences, squared distances and cross products.

use vstd::prelude::*;

verus! {

/// Largest coordinate magnitude the controller accepts (2^30 subunits).
///
/// This bound keeps every squared distance of two in-bounds points within
/// `u64`, and every cross-product component of an in-bounds vector with a
/// segment vector within `i64`.
pub const COORD_LIMIT: i64 = 0x4000_0000;

/// A point or direction in 3D space, in fixed-point coordinates: each
/// component counts `crate::destination::FIXED_POINT_SCALE`-ths of a world
/// unit.
#[derive(Clone, Copy, PartialEq, Eq, Structural, Debug)]
pub struct Vec3I {
    pub x: i64,
    pub y: i64,
    pub z: i64,
}

impl Vec3I {
    /// Every component within the coordinate limit; holds of each point or
    /// facing vector handed to the controller.
    pub open spec fn in_bounds(self) -> bool {
        &&& -COORD_LIMIT <= self.x <= COORD_LIMIT
        &&& -COORD_LIMIT <= self.y <= COORD_LIMIT
        &&& -COORD_LIMIT <= self.z <= COORD_LIMIT
    }

    /// The (twice as wide) bound met by the difference of two in-bounds
    /// points, such as the segment from an origin to a target.
    pub open spec fn in_segment_bounds(self) -> bool {
        &&& -2 * COORD_LIMIT <= self.x <= 2 * COORD_LIMIT
        &&& -2 * COORD_LIMIT <= self.y <= 2 * COORD_LIMIT
        &&& -2 * COORD_LIMIT <= self.z <= 2 * COORD_LIMIT
    }

    pub open spec fn is_zero(self) -> bool {
        self.x == 0 && self.y == 0 && self.z == 0
    }
}

/// Componentwise difference `a - b`: the displacement that carries `b` to `a`.
pub open spec fn spec_diff(a: Vec3I, b: Vec3I) -> Vec3I {
    Vec3I { x: (a.x - b.x) as i64, y: (a.y - b.y) as i64, z: (a.z - b.z) as i64 }
}

pub open spec fn square(n: int) -> int {
    n * n
}

/// Squared Euclidean distance between two points, exact in the integer model.
pub open spec fn dist_sq(a: Vec3I, b: Vec3I) -> int {
    square(a.x - b.x) + square(a.y - b.y) + square(a.z - b.z)
}

/// Cross product `a x b`, whose direction is the shortest-arc rotation axis
/// from `a` toward `b`.
pub open spec fn spec_cross(a: Vec3I, b: Vec3I) -> Vec3I {
    Vec3I {
        x: (a.y * b.z - a.z * b.y) as i64,
        y: (a.z * b.x - a.x * b.z) as i64,
        z: (a.x * b.y - a.y * b.x) as i64,
    }
}

pub proof fn lemma_square_nonneg(n: int)
    ensures
        square(n) >= 0,
{
    assert(n * n >= 0) by (nonlinear_arith);
}

pub proof fn lemma_dist_sq_nonneg(a: Vec3I, b: Vec3I)
    ensures
        dist_sq(a, b) >= 0,
{
    lemma_square_nonneg(a.x - b.x);
    lemma_square_nonneg(a.y - b.y);
    lemma_square_nonneg(a.z - b.z);
}

proof fn lemma_square_bound(n: int)
    requires
        -0x8000_0000 <= n <= 0x8000_0000,
    ensures
        0 <= n * n <= 0x4000_0000_0000_0000,
{
    assert(0 <= n * n <= 0x4000_0000_0000_0000) by (nonlinear_arith)
        requires
            -0x8000_0000 <= n <= 0x8000_0000,
    ;
}

proof fn lemma_mixed_product_bound(m: int, n: int)
    requires
        -0x4000_0000 <= m <= 0x4000_0000,
        -0x8000_0000 <= n <= 0x8000_0000,
    ensures
        -0x2000_0000_0000_0000 <= m * n <= 0x2000_0000_0000_0000,
{
    assert(-0x2000_0000_0000_0000 <= m * n <= 0x2000_0000_0000_0000) by (nonlinear_arith)
        requires
            -0x4000_0000 <= m <= 0x4000_0000,
            -0x8000_0000 <= n <= 0x8000_0000,
    ;
}

/// `a - b` componentwise.
pub fn diff(a: Vec3I, b: Vec3I) -> (r: Vec3I)
    requires
        a.in_bounds(),
        b.in_bounds(),
    ensures
        r == spec_diff(a, b),
        r.in_segment_bounds(),
        r.x == a.x - b.x,
        r.y == a.y - b.y,
        r.z == a.z - b.z,
{
    Vec3I { x: a.x - b.x, y: a.y - b.y, z: a.z - b.z }
}

/// The squared distance between two in-bounds points.
pub fn distance_squared(a: Vec3I, b: Vec3I) -> (r: u64)
    requires
        a.in_bounds(),
        b.in_bounds(),
    ensures
        r == dist_sq(a, b),
{
    let dx: i64 = a.x - b.x;
    let dy: i64 = a.y - b.y;
    let dz: i64 = a.z - b.z;
    proof {
        lemma_square_bound(dx as int);
        lemma_square_bound(dy as int);
        lemma_square_bound(dz as int);
    }
    let sx: i128 = (dx as i128) * (dx as i128);
    let sy: i128 = (dy as i128) * (dy as i128);
    let sz: i128 = (dz as i128) * (dz as i128);
    (sx + sy + sz) as u64
}

/// The cross product of an in-bounds vector with a segment vector.
pub fn cross(a: Vec3I, b: Vec3I) -> (r: Vec3I)
    requires
        a.in_bounds(),
        b.in_segment_bounds(),
    ensures
        r == spec_cross(a, b),
        r.x == a.y * b.z - a.z * b.y,
        r.y == a.z * b.x - a.x * b.z,
        r.z == a.x * b.y - a.y * b.x,
{
    proof {
        lemma_mixed_product_bound(a.y as int, b.z as int);
        lemma_mixed_product_bound(a.z as int, b.y as int);
        lemma_mixed_product_bound(a.z as int, b.x as int);
        lemma_mixed_product_bound(a.x as int, b.z as int);
        lemma_mixed_product_bound(a.x as int, b.y as int);
        lemma_mixed_product_bound(a.y as int, b.x as int);
    }
    let x: i128 = (a.y as i128) * (b.z as i128) - (a.z as i128) * (b.y as i128);
    let y: i128 = (a.z as i128) * (b.x as i128) - (a.x as i128) * (b.z as i128);
    let z: i128 = (a.x as i128) * (b.y as i128) - (a.y as i128) * (b.x as i128);
    Vec3I { x: x as i64, y: y as i64, z: z as i64 }
}

} // verus!
