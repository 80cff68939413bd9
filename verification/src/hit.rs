//! The intersection capability: the test a geometric primitive exposes for
//! whether and where a ray meets it, and the record it produces.

use vstd::prelude::*;

verus! {

use crate::COORD_LIMIT;
use crate::fixed::lemma_mul_mag;
use crate::interval::Interval;
use crate::ray::{Point, Ray};
use crate::vec3::{Vec3, comps_within, dot_int};

/// The output of a successful intersection test: the hit point, the unit
/// surface normal oriented against the incoming ray, the ray parameter of
/// the hit, and which side was struck. Meaningful only when the producing
/// test reported a hit.
#[derive(Clone, Copy, Debug, PartialEq, Eq, Structural)]
pub struct HitRecord {
    /// The hit point.
    pub p: Point,
    /// The surface normal at the hit, oriented against the ray.
    pub norm: Vec3,
    /// The ray parameter of the hit.
    pub t: i64,
    /// Whether the ray struck the outward-facing side.
    pub front_face: bool,
}

/// The orientation rule of a hit record: the ray strikes the front face
/// when its direction opposes the outward normal, and the stored normal is
/// the outward normal, negated on a back-face hit so that it always points
/// against the ray.
pub open spec fn oriented(rec: HitRecord, r: Ray, outward: Vec3) -> bool {
    &&& rec.front_face == (dot_int(r.direction, outward) < 0)
    &&& if rec.front_face {
        rec.norm == outward
    } else {
        rec.norm == (Vec3 { x: -outward.x as i64, y: -outward.y as i64, z: -outward.z as i64 })
    }
}

impl HitRecord {
    /// Orients and stores the normal: the sign of the exact dot product of
    /// the ray direction with the outward normal decides the face, and the
    /// stored normal points against the ray.
    pub fn set_face_normal(&mut self, r: &Ray, outward_norm: &Vec3)
        requires
            comps_within(r.direction, COORD_LIMIT as int),
            comps_within(*outward_norm, COORD_LIMIT as int),
        ensures
            oriented(*final(self), *r, *outward_norm),
            final(self).p == old(self).p,
            final(self).t == old(self).t,
    {
        proof {
            lemma_mul_mag(
                r.direction.x as int,
                outward_norm.x as int,
                COORD_LIMIT as int,
                COORD_LIMIT as int,
            );
            lemma_mul_mag(
                r.direction.y as int,
                outward_norm.y as int,
                COORD_LIMIT as int,
                COORD_LIMIT as int,
            );
            lemma_mul_mag(
                r.direction.z as int,
                outward_norm.z as int,
                COORD_LIMIT as int,
                COORD_LIMIT as int,
            );
        }
        let sx: i128 = (r.direction.x as i128) * (outward_norm.x as i128);
        let sy: i128 = (r.direction.y as i128) * (outward_norm.y as i128);
        let sz: i128 = (r.direction.z as i128) * (outward_norm.z as i128);
        self.front_face = sx + sy + sz < 0;
        if self.front_face {
            self.norm = *outward_norm;
        } else {
            self.norm = outward_norm.neg();
        }
    }
}

impl Default for HitRecord {
    /// A zeroed record, the customary scratch value before a test.
    fn default() -> (r: Self)
        ensures
            r == (HitRecord {
                p: Vec3 { x: 0, y: 0, z: 0 },
                norm: Vec3 { x: 0, y: 0, z: 0 },
                t: 0,
                front_face: false,
            }),
    {
        HitRecord {
            p: Vec3 { x: 0, y: 0, z: 0 },
            norm: Vec3 { x: 0, y: 0, z: 0 },
            t: 0,
            front_face: false,
        }
    }
}

/// The intersection capability: a primitive can test a ray against itself
/// within a parameter interval and produce the record of the nearest hit.
pub trait Hittable: Sized {
    /// Whether a ray hits the receiver at some parameter strictly inside
    /// `(tmin, tmax)`, every step of the test staying in range.
    spec fn spec_hit(&self, r: Ray, tmin: int, tmax: int) -> bool;

    /// The record of the hit that [`Hittable::hit`] reports; meaningful
    /// only when `spec_hit` holds.
    spec fn spec_rec(&self, r: Ray, tmin: int, tmax: int) -> HitRecord;

    /// The parameter of a reported hit lies strictly inside the search
    /// interval.
    proof fn lemma_hit_in_range(&self, r: Ray, tmin: int, tmax: int)
        requires
            self.spec_hit(r, tmin, tmax),
        ensures
            tmin < self.spec_rec(r, tmin, tmax).t < tmax,
    ;

    /// Tests `r` against the receiver inside `ray_t`. Returns true exactly
    /// when the receiver is hit, and then writes the hit into `rec`; on a
    /// miss `rec` is left untouched.
    fn hit(&self, r: &Ray, ray_t: &Interval, rec: &mut HitRecord) -> (b: bool)
        ensures
            b == self.spec_hit(*r, ray_t.min as int, ray_t.max as int),
            b ==> *final(rec) == self.spec_rec(*r, ray_t.min as int, ray_t.max as int),
            !b ==> *final(rec) == *old(rec),
    ;
}

} // verus!
