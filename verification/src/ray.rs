//! Rays: an origin with a direction, and the parametric point along them.

use vstd::prelude::*;

verus! {

use crate::SCALE;
use crate::fixed::{fits, fmul, lemma_fmul_one};
use crate::vec3::Vec3;

/// A vector read as a position.
pub type Point = Vec3;

/// A half-line: every point `origin + t * direction` for a scalar `t`.
#[derive(Clone, Copy, Debug, PartialEq, Eq, Structural)]
pub struct Ray {
    pub origin: Point,
    pub direction: Vec3,
}

/// The point of `r` at parameter `t`: `origin + t * direction` in fixed
/// point.
pub open spec fn at_spec(r: Ray, t: int) -> Point {
    Vec3 {
        x: (r.origin.x + fmul(r.direction.x as int, t)) as i64,
        y: (r.origin.y + fmul(r.direction.y as int, t)) as i64,
        z: (r.origin.z + fmul(r.direction.z as int, t)) as i64,
    }
}

/// The computation of [`at_spec`] stays within the `i64` range.
pub open spec fn at_fits(r: Ray, t: int) -> bool {
    &&& fits(fmul(r.direction.x as int, t))
    &&& fits(fmul(r.direction.y as int, t))
    &&& fits(fmul(r.direction.z as int, t))
    &&& fits(r.origin.x + fmul(r.direction.x as int, t))
    &&& fits(r.origin.y + fmul(r.direction.y as int, t))
    &&& fits(r.origin.z + fmul(r.direction.z as int, t))
}

impl Ray {
    /// The ray from `origin` along `direction`.
    pub fn new(origin: Point, direction: Vec3) -> (r: Ray)
        ensures
            r == (Ray { origin, direction }),
    {
        Ray { origin, direction }
    }

    /// The point at parameter `t` along the ray, by exact linear
    /// interpolation.
    pub fn at(&self, t: i64) -> (p: Point)
        requires
            at_fits(*self, t as int),
        ensures
            p == at_spec(*self, t as int),
    {
        self.origin.add(self.direction.scale(t))
    }
}

/// At parameter zero a ray is at its origin; at parameter one it is at
/// origin plus direction, whenever that sum is representable.
pub proof fn lemma_ray_endpoints(r: Ray)
    ensures
        at_fits(r, 0),
        at_spec(r, 0) == r.origin,
        fits(r.origin.x + r.direction.x) && fits(r.origin.y + r.direction.y) && fits(
            r.origin.z + r.direction.z,
        ) ==> at_fits(r, SCALE as int) && at_spec(r, SCALE as int) == (Vec3 {
            x: (r.origin.x + r.direction.x) as i64,
            y: (r.origin.y + r.direction.y) as i64,
            z: (r.origin.z + r.direction.z) as i64,
        }),
{
    lemma_fmul_one(r.direction.x as int);
    lemma_fmul_one(r.direction.y as int);
    lemma_fmul_one(r.direction.z as int);
}

} // verus!
