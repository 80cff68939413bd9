//! The sole geometric primitive: a sphere, intersected by the quadratic
//! formula in half-b form.

use vstd::prelude::*;

verus! {

use crate::{COORD_LIMIT, SCALE};
use crate::fixed::{
    fits, fmul, fdiv, iabs, sqrt_floor, add_checked, sub_checked, mul_checked, div_checked,
    sqrt_fixed,
};
use crate::hit::{HitRecord, Hittable};
use crate::interval::Interval;
use crate::ray::{Point, Ray, at_spec, at_fits};
use crate::vec3::{Vec3, dot_spec, dot_fits, dot_int, comps_within};

/// A sphere given by its centre and radius.
#[derive(Clone, Copy, Debug, PartialEq, Eq, Structural)]
pub struct Sphere {
    pub centre: Point,
    pub radius: i64,
}

/// `centre - origin`, the vector from the ray origin to the centre.
pub open spec fn oc_x(s: Sphere, r: Ray) -> int {
    s.centre.x - r.origin.x
}

/// See [`oc_x`].
pub open spec fn oc_y(s: Sphere, r: Ray) -> int {
    s.centre.y - r.origin.y
}

/// See [`oc_x`].
pub open spec fn oc_z(s: Sphere, r: Ray) -> int {
    s.centre.z - r.origin.z
}

/// The quadratic coefficient `a = |direction|^2`.
pub open spec fn qa(r: Ray) -> int {
    dot_spec(r.direction, r.direction)
}

/// The half-b coefficient `h = direction . oc`.
pub open spec fn qh(s: Sphere, r: Ray) -> int {
    fmul(r.direction.x as int, oc_x(s, r)) + fmul(r.direction.y as int, oc_y(s, r)) + fmul(
        r.direction.z as int,
        oc_z(s, r),
    )
}

/// The constant coefficient `c = |oc|^2 - radius^2`.
pub open spec fn qc(s: Sphere, r: Ray) -> int {
    fmul(oc_x(s, r), oc_x(s, r)) + fmul(oc_y(s, r), oc_y(s, r)) + fmul(oc_z(s, r), oc_z(s, r))
        - fmul(s.radius as int, s.radius as int)
}

/// The discriminant `h^2 - a c`.
pub open spec fn disc_spec(s: Sphere, r: Ray) -> int {
    fmul(qh(s, r), qh(s, r)) - fmul(qa(r), qc(s, r))
}

/// The rounded-down fixed-point square root of the discriminant.
pub open spec fn sqrt_disc(s: Sphere, r: Ray) -> int {
    sqrt_floor(disc_spec(s, r) * SCALE)
}

/// The nearer candidate root `(h - sqrt(disc)) / a`.
pub open spec fn root_near(s: Sphere, r: Ray) -> int {
    fdiv(qh(s, r) - sqrt_disc(s, r), qa(r))
}

/// The farther candidate root `(h + sqrt(disc)) / a`.
pub open spec fn root_far(s: Sphere, r: Ray) -> int {
    fdiv(qh(s, r) + sqrt_disc(s, r), qa(r))
}

/// The root the test reports: the nearer one when it lies strictly inside
/// the search interval, else the farther one.
pub open spec fn chosen_root(s: Sphere, r: Ray, tmin: int, tmax: int) -> int {
    if tmin < root_near(s, r) < tmax {
        root_near(s, r)
    } else {
        root_far(s, r)
    }
}

/// The outward unit normal at parameter `t`: `(p - centre) / radius`.
pub open spec fn outward_normal(s: Sphere, r: Ray, t: int) -> Vec3 {
    let p = at_spec(r, t);
    Vec3 {
        x: fdiv(p.x - s.centre.x, s.radius as int) as i64,
        y: fdiv(p.y - s.centre.y, s.radius as int) as i64,
        z: fdiv(p.z - s.centre.z, s.radius as int) as i64,
    }
}

/// The coefficient computation stays in range, on a usable sphere and ray:
/// nonzero radius, direction inside the coordinate limit and with a
/// positive squared length.
pub open spec fn coeffs_ok(s: Sphere, r: Ray) -> bool {
    &&& comps_within(r.direction, COORD_LIMIT as int)
    &&& s.radius != 0
    &&& fits(oc_x(s, r))
    &&& fits(oc_y(s, r))
    &&& fits(oc_z(s, r))
    &&& dot_fits(r.direction, r.direction)
    &&& qa(r) > 0
    &&& fits(fmul(r.direction.x as int, oc_x(s, r)))
    &&& fits(fmul(r.direction.y as int, oc_y(s, r)))
    &&& fits(fmul(r.direction.x as int, oc_x(s, r)) + fmul(r.direction.y as int, oc_y(s, r)))
    &&& fits(fmul(r.direction.z as int, oc_z(s, r)))
    &&& fits(qh(s, r))
    &&& fits(fmul(oc_x(s, r), oc_x(s, r)))
    &&& fits(fmul(oc_y(s, r), oc_y(s, r)))
    &&& fits(fmul(oc_x(s, r), oc_x(s, r)) + fmul(oc_y(s, r), oc_y(s, r)))
    &&& fits(fmul(oc_z(s, r), oc_z(s, r)))
    &&& fits(
        fmul(oc_x(s, r), oc_x(s, r)) + fmul(oc_y(s, r), oc_y(s, r)) + fmul(
            oc_z(s, r),
            oc_z(s, r),
        ),
    )
    &&& fits(fmul(s.radius as int, s.radius as int))
    &&& fits(qc(s, r))
    &&& fits(fmul(qh(s, r), qh(s, r)))
    &&& fits(fmul(qa(r), qc(s, r)))
    &&& fits(disc_spec(s, r))
}

/// Both candidate roots are computable in range.
pub open spec fn roots_ok(s: Sphere, r: Ray) -> bool {
    &&& fits(qh(s, r) - sqrt_disc(s, r))
    &&& fits(qh(s, r) + sqrt_disc(s, r))
    &&& fits(root_near(s, r))
    &&& fits(root_far(s, r))
}

/// The hit point and outward normal at parameter `t` are computable in
/// range, with the normal inside the coordinate limit.
pub open spec fn point_ok(s: Sphere, r: Ray, t: int) -> bool {
    &&& at_fits(r, t)
    &&& fits(at_spec(r, t).x - s.centre.x)
    &&& fits(at_spec(r, t).y - s.centre.y)
    &&& fits(at_spec(r, t).z - s.centre.z)
    &&& iabs(fdiv(at_spec(r, t).x - s.centre.x, s.radius as int)) <= COORD_LIMIT
    &&& iabs(fdiv(at_spec(r, t).y - s.centre.y, s.radius as int)) <= COORD_LIMIT
    &&& iabs(fdiv(at_spec(r, t).z - s.centre.z, s.radius as int)) <= COORD_LIMIT
}

/// A sphere is hit inside `(tmin, tmax)` when the whole test computes in
/// range, the discriminant is nonnegative, and a candidate root lies
/// strictly inside the interval.
pub open spec fn sphere_hit_spec(s: Sphere, r: Ray, tmin: int, tmax: int) -> bool {
    &&& coeffs_ok(s, r)
    &&& disc_spec(s, r) >= 0
    &&& roots_ok(s, r)
    &&& (tmin < root_near(s, r) < tmax || tmin < root_far(s, r) < tmax)
    &&& point_ok(s, r, chosen_root(s, r, tmin, tmax))
}

/// The record of a sphere hit: the chosen root, the point there, and the
/// outward normal oriented against the ray.
pub open spec fn sphere_rec_spec(s: Sphere, r: Ray, tmin: int, tmax: int) -> HitRecord {
    let t = chosen_root(s, r, tmin, tmax);
    let p = at_spec(r, t);
    let ow = outward_normal(s, r, t);
    let ff = dot_int(r.direction, ow) < 0;
    HitRecord {
        p,
        norm: if ff {
            ow
        } else {
            Vec3 { x: -ow.x as i64, y: -ow.y as i64, z: -ow.z as i64 }
        },
        t: t as i64,
        front_face: ff,
    }
}

impl Sphere {
    /// The sphere with the given centre and radius.
    pub fn new(centre: Point, radius: i64) -> (s: Sphere)
        ensures
            s == (Sphere { centre, radius }),
    {
        Sphere { centre, radius }
    }
}

impl Hittable for Sphere {
    open spec fn spec_hit(&self, r: Ray, tmin: int, tmax: int) -> bool {
        sphere_hit_spec(*self, r, tmin, tmax)
    }

    open spec fn spec_rec(&self, r: Ray, tmin: int, tmax: int) -> HitRecord {
        sphere_rec_spec(*self, r, tmin, tmax)
    }

    proof fn lemma_hit_in_range(&self, r: Ray, tmin: int, tmax: int) {
        let t = chosen_root(*self, r, tmin, tmax);
        assert(tmin < t < tmax);
    }

    fn hit(&self, r: &Ray, ray_t: &Interval, rec: &mut HitRecord) -> (b: bool) {
        let d = r.direction;
        if d.x < -COORD_LIMIT || d.x > COORD_LIMIT || d.y < -COORD_LIMIT || d.y > COORD_LIMIT
            || d.z < -COORD_LIMIT || d.z > COORD_LIMIT {
            return false;
        }
        if self.radius == 0 {
            return false;
        }
        let ocx = match sub_checked(self.centre.x, r.origin.x) {
            Some(v) => v,
            None => { return false; },
        };
        let ocy = match sub_checked(self.centre.y, r.origin.y) {
            Some(v) => v,
            None => { return false; },
        };
        let ocz = match sub_checked(self.centre.z, r.origin.z) {
            Some(v) => v,
            None => { return false; },
        };
        let axx = match mul_checked(d.x, d.x) {
            Some(v) => v,
            None => { return false; },
        };
        let ayy = match mul_checked(d.y, d.y) {
            Some(v) => v,
            None => { return false; },
        };
        let azz = match mul_checked(d.z, d.z) {
            Some(v) => v,
            None => { return false; },
        };
        let axy = match add_checked(axx, ayy) {
            Some(v) => v,
            None => { return false; },
        };
        let a = match add_checked(axy, azz) {
            Some(v) => v,
            None => { return false; },
        };
        if a <= 0 {
            return false;
        }
        let hx = match mul_checked(d.x, ocx) {
            Some(v) => v,
            None => { return false; },
        };
        let hy = match mul_checked(d.y, ocy) {
            Some(v) => v,
            None => { return false; },
        };
        let hz = match mul_checked(d.z, ocz) {
            Some(v) => v,
            None => { return false; },
        };
        let hxy = match add_checked(hx, hy) {
            Some(v) => v,
            None => { return false; },
        };
        let h = match add_checked(hxy, hz) {
            Some(v) => v,
            None => { return false; },
        };
        let cxx = match mul_checked(ocx, ocx) {
            Some(v) => v,
            None => { return false; },
        };
        let cyy = match mul_checked(ocy, ocy) {
            Some(v) => v,
            None => { return false; },
        };
        let czz = match mul_checked(ocz, ocz) {
            Some(v) => v,
            None => { return false; },
        };
        let cxy = match add_checked(cxx, cyy) {
            Some(v) => v,
            None => { return false; },
        };
        let oc_sq = match add_checked(cxy, czz) {
            Some(v) => v,
            None => { return false; },
        };
        let rr = match mul_checked(self.radius, self.radius) {
            Some(v) => v,
            None => { return false; },
        };
        let c = match sub_checked(oc_sq, rr) {
            Some(v) => v,
            None => { return false; },
        };
        let hh = match mul_checked(h, h) {
            Some(v) => v,
            None => { return false; },
        };
        let ac = match mul_checked(a, c) {
            Some(v) => v,
            None => { return false; },
        };
        let disc = match sub_checked(hh, ac) {
            Some(v) => v,
            None => { return false; },
        };
        if disc < 0 {
            return false;
        }
        let sq = sqrt_fixed(disc);
        let hm = match sub_checked(h, sq) {
            Some(v) => v,
            None => { return false; },
        };
        let hp = match add_checked(h, sq) {
            Some(v) => v,
            None => { return false; },
        };
        let near = match div_checked(hm, a) {
            Some(v) => v,
            None => { return false; },
        };
        let far = match div_checked(hp, a) {
            Some(v) => v,
            None => { return false; },
        };
        let root = if ray_t.surrounds(near) {
            near
        } else if ray_t.surrounds(far) {
            far
        } else {
            return false;
        };
        let pdx = match mul_checked(d.x, root) {
            Some(v) => v,
            None => { return false; },
        };
        let pdy = match mul_checked(d.y, root) {
            Some(v) => v,
            None => { return false; },
        };
        let pdz = match mul_checked(d.z, root) {
            Some(v) => v,
            None => { return false; },
        };
        let px = match add_checked(r.origin.x, pdx) {
            Some(v) => v,
            None => { return false; },
        };
        let py = match add_checked(r.origin.y, pdy) {
            Some(v) => v,
            None => { return false; },
        };
        let pz = match add_checked(r.origin.z, pdz) {
            Some(v) => v,
            None => { return false; },
        };
        let wx = match sub_checked(px, self.centre.x) {
            Some(v) => v,
            None => { return false; },
        };
        let wy = match sub_checked(py, self.centre.y) {
            Some(v) => v,
            None => { return false; },
        };
        let wz = match sub_checked(pz, self.centre.z) {
            Some(v) => v,
            None => { return false; },
        };
        let nx = match div_checked(wx, self.radius) {
            Some(v) => v,
            None => { return false; },
        };
        let ny = match div_checked(wy, self.radius) {
            Some(v) => v,
            None => { return false; },
        };
        let nz = match div_checked(wz, self.radius) {
            Some(v) => v,
            None => { return false; },
        };
        if nx < -COORD_LIMIT || nx > COORD_LIMIT || ny < -COORD_LIMIT || ny > COORD_LIMIT
            || nz < -COORD_LIMIT || nz > COORD_LIMIT {
            return false;
        }
        rec.t = root;
        rec.p = Vec3 { x: px, y: py, z: pz };
        let outward = Vec3 { x: nx, y: ny, z: nz };
        rec.set_face_normal(r, &outward);
        true
    }
}

/// The farther candidate root never precedes the nearer one.
pub proof fn lemma_roots_ordered(s: Sphere, r: Ray)
    requires
        coeffs_ok(s, r),
        disc_spec(s, r) >= 0,
    ensures
        root_near(s, r) <= root_far(s, r),
{
    crate::fixed::lemma_sqrt_floor(disc_spec(s, r) * SCALE);
    assert(disc_spec(s, r) * SCALE >= 0) by (nonlinear_arith)
        requires
            disc_spec(s, r) >= 0,
            SCALE == 1048576,
    ;
    crate::fixed::lemma_tdiv_monotone(
        (qh(s, r) - sqrt_disc(s, r)) * SCALE,
        (qh(s, r) + sqrt_disc(s, r)) * SCALE,
        qa(r),
    );
    assert((qh(s, r) - sqrt_disc(s, r)) * SCALE <= (qh(s, r) + sqrt_disc(s, r)) * SCALE)
        by (nonlinear_arith)
        requires
            sqrt_disc(s, r) >= 0,
            SCALE == 1048576,
    ;
}

/// On any sphere hit, the stored normal is the outward radius direction
/// `(p - centre) / radius` at the hit point, oriented against the ray:
/// kept as computed on a front face, negated on a back face.
pub proof fn lemma_hit_normal_along_radius(s: Sphere, r: Ray, tmin: int, tmax: int)
    requires
        sphere_hit_spec(s, r, tmin, tmax),
    ensures
        ({
            let rec = sphere_rec_spec(s, r, tmin, tmax);
            let ow = outward_normal(s, r, chosen_root(s, r, tmin, tmax));
            &&& rec.p == at_spec(r, chosen_root(s, r, tmin, tmax))
            &&& rec.front_face == (dot_int(r.direction, ow) < 0)
            &&& rec.front_face ==> rec.norm == ow
            &&& !rec.front_face ==> rec.norm == (Vec3 {
                x: -ow.x as i64,
                y: -ow.y as i64,
                z: -ow.z as i64,
            })
        }),
{
}

} // verus!
