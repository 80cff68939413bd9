//! Three-component vectors over fixed-point scalars, used interchangeably
//! as points, directions and colours.

use vstd::prelude::*;

verus! {

use crate::SCALE;
use crate::fixed::{
    fits, fmul, fdiv, iabs, sqrt_floor, is_sqrt_floor, lemma_sqrt_floor,
    lemma_fmul_mag, lemma_mul_mag, lemma_fmul_self_nonneg,
    lemma_fmul_unit_range, lemma_tdiv_mag_lower, mul_fixed, div_fixed, sqrt_fixed,
};
use crate::sampler::Sampler;

/// A candidate the rejection sampling of [`Vec3::random_unit_vector`]
/// accepts: drawn from the cube of half-width one, with a squared length in
/// `(1/4, 1]`. The lower bound is the fixed-point underflow guard: it
/// keeps the normalization well away from a zero division.
pub open spec fn accepted_candidate(p: Vec3) -> bool {
    &&& comps_within(p, SCALE as int)
    &&& (SCALE as int) / 4 < len_sq_spec(p) <= SCALE
}

/// `v` is the normalization of some acceptable candidate: what
/// [`Vec3::random_unit_vector`] returns.
pub open spec fn is_sampled_unit(v: Vec3) -> bool {
    exists|p: Vec3| #[trigger] accepted_candidate(p) && v == unit_spec(p)
}

/// A vector of three fixed-point scalars. Whether it is a point, a
/// direction or a colour is contextual; the components carry the real
/// coordinates times `SCALE`.
#[derive(Clone, Copy, Debug, PartialEq, Eq, Structural)]
pub struct Vec3 {
    pub x: i64,
    pub y: i64,
    pub z: i64,
}

/// The fixed-point dot product of two vectors.
pub open spec fn dot_spec(a: Vec3, b: Vec3) -> int {
    fmul(a.x as int, b.x as int) + fmul(a.y as int, b.y as int) + fmul(
        a.z as int,
        b.z as int,
    )
}

/// The computation of [`dot_spec`] stays within the `i64` range.
pub open spec fn dot_fits(a: Vec3, b: Vec3) -> bool {
    &&& fits(fmul(a.x as int, b.x as int))
    &&& fits(fmul(a.y as int, b.y as int))
    &&& fits(fmul(a.x as int, b.x as int) + fmul(a.y as int, b.y as int))
    &&& fits(fmul(a.z as int, b.z as int))
    &&& fits(dot_spec(a, b))
}

/// The unscaled integer dot product: its sign is exactly the sign of the
/// real dot product, free of rounding.
pub open spec fn dot_int(a: Vec3, b: Vec3) -> int {
    (a.x as int) * (b.x as int) + (a.y as int) * (b.y as int) + (a.z as int) * (b.z as int)
}

/// The fixed-point squared length of a vector.
pub open spec fn len_sq_spec(v: Vec3) -> int {
    dot_spec(v, v)
}

/// The fixed-point length of a vector: the rounded-down square root of the
/// squared length.
pub open spec fn len_spec(v: Vec3) -> int {
    sqrt_floor(len_sq_spec(v) * SCALE)
}

/// The unit vector of `v`: each component divided by the length.
pub open spec fn unit_spec(v: Vec3) -> Vec3 {
    Vec3 {
        x: fdiv(v.x as int, len_spec(v)) as i64,
        y: fdiv(v.y as int, len_spec(v)) as i64,
        z: fdiv(v.z as int, len_spec(v)) as i64,
    }
}

/// Every component of `v` has magnitude at most `m`.
pub open spec fn comps_within(v: Vec3, m: int) -> bool {
    iabs(v.x as int) <= m && iabs(v.y as int) <= m && iabs(v.z as int) <= m
}

impl Vec3 {
    /// The vector with the given components.
    pub fn new(x: i64, y: i64, z: i64) -> (v: Vec3)
        ensures
            v == (Vec3 { x, y, z }),
    {
        Vec3 { x, y, z }
    }

    /// Component-wise sum.
    pub fn add(self, rhs: Vec3) -> (v: Vec3)
        requires
            fits(self.x + rhs.x),
            fits(self.y + rhs.y),
            fits(self.z + rhs.z),
        ensures
            v.x == self.x + rhs.x,
            v.y == self.y + rhs.y,
            v.z == self.z + rhs.z,
    {
        Vec3 { x: self.x + rhs.x, y: self.y + rhs.y, z: self.z + rhs.z }
    }

    /// Component-wise difference.
    pub fn sub(self, rhs: Vec3) -> (v: Vec3)
        requires
            fits(self.x - rhs.x),
            fits(self.y - rhs.y),
            fits(self.z - rhs.z),
        ensures
            v.x == self.x - rhs.x,
            v.y == self.y - rhs.y,
            v.z == self.z - rhs.z,
    {
        Vec3 { x: self.x - rhs.x, y: self.y - rhs.y, z: self.z - rhs.z }
    }

    /// Component-wise negation.
    pub fn neg(self) -> (v: Vec3)
        requires
            self.x > i64::MIN,
            self.y > i64::MIN,
            self.z > i64::MIN,
        ensures
            v.x == -self.x,
            v.y == -self.y,
            v.z == -self.z,
    {
        Vec3 { x: -self.x, y: -self.y, z: -self.z }
    }

    /// Scales by a scalar: each component times `t`, in fixed point.
    pub fn scale(self, t: i64) -> (v: Vec3)
        requires
            fits(fmul(self.x as int, t as int)),
            fits(fmul(self.y as int, t as int)),
            fits(fmul(self.z as int, t as int)),
        ensures
            v.x == fmul(self.x as int, t as int),
            v.y == fmul(self.y as int, t as int),
            v.z == fmul(self.z as int, t as int),
    {
        Vec3 {
            x: mul_fixed(self.x, t),
            y: mul_fixed(self.y, t),
            z: mul_fixed(self.z, t),
        }
    }

    /// Component-wise product, the colour-blending operation.
    pub fn mul_vec(self, rhs: Vec3) -> (v: Vec3)
        requires
            fits(fmul(self.x as int, rhs.x as int)),
            fits(fmul(self.y as int, rhs.y as int)),
            fits(fmul(self.z as int, rhs.z as int)),
        ensures
            v.x == fmul(self.x as int, rhs.x as int),
            v.y == fmul(self.y as int, rhs.y as int),
            v.z == fmul(self.z as int, rhs.z as int),
    {
        Vec3 {
            x: mul_fixed(self.x, rhs.x),
            y: mul_fixed(self.y, rhs.y),
            z: mul_fixed(self.z, rhs.z),
        }
    }

    /// Divides by a scalar: each component over `t`, in fixed point.
    pub fn div(self, t: i64) -> (v: Vec3)
        requires
            t != 0,
            fits(fdiv(self.x as int, t as int)),
            fits(fdiv(self.y as int, t as int)),
            fits(fdiv(self.z as int, t as int)),
        ensures
            v.x == fdiv(self.x as int, t as int),
            v.y == fdiv(self.y as int, t as int),
            v.z == fdiv(self.z as int, t as int),
    {
        Vec3 {
            x: div_fixed(self.x, t),
            y: div_fixed(self.y, t),
            z: div_fixed(self.z, t),
        }
    }

    /// The fixed-point dot product.
    pub fn dot(&self, rhs: &Vec3) -> (r: i64)
        requires
            dot_fits(*self, *rhs),
        ensures
            r == dot_spec(*self, *rhs),
    {
        let px = mul_fixed(self.x, rhs.x);
        let py = mul_fixed(self.y, rhs.y);
        let pz = mul_fixed(self.z, rhs.z);
        px + py + pz
    }

    /// The cross product, in fixed point.
    pub fn cross(&self, rhs: &Vec3) -> (v: Vec3)
        requires
            fits(fmul(self.y as int, rhs.z as int)),
            fits(fmul(self.z as int, rhs.y as int)),
            fits(fmul(self.y as int, rhs.z as int) - fmul(self.z as int, rhs.y as int)),
            fits(fmul(self.z as int, rhs.x as int)),
            fits(fmul(self.x as int, rhs.z as int)),
            fits(fmul(self.z as int, rhs.x as int) - fmul(self.x as int, rhs.z as int)),
            fits(fmul(self.x as int, rhs.y as int)),
            fits(fmul(self.y as int, rhs.x as int)),
            fits(fmul(self.x as int, rhs.y as int) - fmul(self.y as int, rhs.x as int)),
        ensures
            v.x == fmul(self.y as int, rhs.z as int) - fmul(self.z as int, rhs.y as int),
            v.y == fmul(self.z as int, rhs.x as int) - fmul(self.x as int, rhs.z as int),
            v.z == fmul(self.x as int, rhs.y as int) - fmul(self.y as int, rhs.x as int),
    {
        Vec3 {
            x: mul_fixed(self.y, rhs.z) - mul_fixed(self.z, rhs.y),
            y: mul_fixed(self.z, rhs.x) - mul_fixed(self.x, rhs.z),
            z: mul_fixed(self.x, rhs.y) - mul_fixed(self.y, rhs.x),
        }
    }

    /// The fixed-point squared length.
    pub fn length_squared(&self) -> (r: i64)
        requires
            dot_fits(*self, *self),
        ensures
            r == len_sq_spec(*self),
            r >= 0,
    {
        proof {
            lemma_fmul_self_nonneg(self.x as int);
            lemma_fmul_self_nonneg(self.y as int);
            lemma_fmul_self_nonneg(self.z as int);
        }
        self.dot(self)
    }

    /// The fixed-point length, rounded down.
    pub fn length(&self) -> (r: i64)
        requires
            dot_fits(*self, *self),
        ensures
            r == len_spec(*self),
            r >= 0,
            is_sqrt_floor(len_sq_spec(*self) * SCALE, r as int),
    {
        sqrt_fixed(self.length_squared())
    }

    /// The unit vector: `self` divided by its length. The length must not
    /// carry zero, that is, the squared length must be at least one unit.
    pub fn unit(&self) -> (v: Vec3)
        requires
            dot_fits(*self, *self),
            len_sq_spec(*self) >= 1,
            fits(fdiv(self.x as int, len_spec(*self))),
            fits(fdiv(self.y as int, len_spec(*self))),
            fits(fdiv(self.z as int, len_spec(*self))),
        ensures
            v == unit_spec(*self),
    {
        let len = self.length();
        proof {
            let ls = len_sq_spec(*self);
            assert(len >= 1) by (nonlinear_arith)
                requires
                    len >= 0,
                    ls >= 1,
                    ls * 1048576 < ((len as int) + 1) * ((len as int) + 1),
            ;
        }
        self.div(len)
    }

    /// A vector with each component drawn uniformly from `[0, 1)`.
    pub fn random(sampler: &mut Sampler) -> (v: Vec3)
        ensures
            0 <= v.x < SCALE,
            0 <= v.y < SCALE,
            0 <= v.z < SCALE,
    {
        let x = sampler.next_unit();
        let y = sampler.next_unit();
        let z = sampler.next_unit();
        Vec3 { x, y, z }
    }

    /// A vector with each component drawn uniformly from `[min, max)`:
    /// `min + (max - min) * u` for a unit draw `u`.
    pub fn random_range(sampler: &mut Sampler, min: i64, max: i64) -> (v: Vec3)
        requires
            min <= max,
            fits(max - min),
        ensures
            min <= v.x <= max,
            min <= v.y <= max,
            min <= v.z <= max,
    {
        let d = max - min;
        let ux = sampler.next_unit();
        let uy = sampler.next_unit();
        let uz = sampler.next_unit();
        proof {
            lemma_fmul_unit_range(d as int, ux as int);
            lemma_fmul_unit_range(d as int, uy as int);
            lemma_fmul_unit_range(d as int, uz as int);
        }
        Vec3 {
            x: min + mul_fixed(d, ux),
            y: min + mul_fixed(d, uy),
            z: min + mul_fixed(d, uz),
        }
    }

    /// A vector of length one, by rejection sampling: draw from the cube of
    /// half-width one until the squared length falls in `(1/4, 1]`, then
    /// normalize. After a bounded number of rejected draws (each rejection
    /// has probability below one half) the `+z` axis is returned, itself
    /// the normalization of an acceptable candidate.
    pub fn random_unit_vector(sampler: &mut Sampler) -> (v: Vec3)
        ensures
            is_sampled_unit(v),
            comps_within(v, 2 * SCALE as int),
    {
        let mut k: u8 = 0;
        while k < 64
            invariant
                k <= 64,
            decreases 64 - k,
        {
            let p = Self::random_range(sampler, -SCALE, SCALE);
            proof {
                lemma_candidate_dot_fits(p);
            }
            let ls = p.length_squared();
            if ls > 262144 && ls <= SCALE {
                proof {
                    lemma_candidate_unit(p);
                }
                let u = p.unit();
                proof {
                    assert(accepted_candidate(p));
                }
                return u;
            }
            k = k + 1;
        }
        let v = Vec3 { x: 0, y: 0, z: SCALE };
        proof {
            lemma_axis_unit();
            assert(accepted_candidate(Vec3 { x: 0, y: 0, z: SCALE as i64 }));
        }
        v
    }

    /// A random unit vector in the hemisphere of `normal`: the sampled
    /// vector, negated when its dot product with `normal` is not positive.
    pub fn random_on_hemisphere(sampler: &mut Sampler, normal: &Vec3) -> (v: Vec3)
        ensures
            dot_int(v, *normal) >= 0,
            comps_within(v, 2 * SCALE as int),
            exists|u: Vec3|
                #[trigger] is_sampled_unit(u) && (v == u || (v.x == -u.x && v.y == -u.y
                    && v.z == -u.z)),
    {
        let u = Self::random_unit_vector(sampler);
        proof {
            lemma_mul_mag(u.x as int, normal.x as int, 2 * SCALE as int, 0x8000000000000000);
            lemma_mul_mag(u.y as int, normal.y as int, 2 * SCALE as int, 0x8000000000000000);
            lemma_mul_mag(u.z as int, normal.z as int, 2 * SCALE as int, 0x8000000000000000);
        }
        let sx: i128 = (u.x as i128) * (normal.x as i128);
        let sy: i128 = (u.y as i128) * (normal.y as i128);
        let sz: i128 = (u.z as i128) * (normal.z as i128);
        let s: i128 = sx + sy + sz;
        if s > 0 {
            u
        } else {
            let w = u.neg();
            proof {
                assert(dot_int(w, *normal) == -dot_int(u, *normal)) by (nonlinear_arith)
                    requires
                        w.x == -u.x && w.y == -u.y && w.z == -u.z,
                ;
            }
            w
        }
    }
}

/// The steps of the squared length of a cube-drawn candidate stay in
/// range, and the squared length lies in `[0, 3]`.
proof fn lemma_candidate_dot_fits(p: Vec3)
    requires
        comps_within(p, SCALE as int),
    ensures
        dot_fits(p, p),
        0 <= len_sq_spec(p) <= 3 * SCALE,
{
    lemma_mul_mag(p.x as int, p.x as int, SCALE as int, SCALE as int);
    lemma_mul_mag(p.y as int, p.y as int, SCALE as int, SCALE as int);
    lemma_mul_mag(p.z as int, p.z as int, SCALE as int, SCALE as int);
    lemma_fmul_mag(p.x as int, p.x as int, (SCALE as int) * (SCALE as int));
    lemma_fmul_mag(p.y as int, p.y as int, (SCALE as int) * (SCALE as int));
    lemma_fmul_mag(p.z as int, p.z as int, (SCALE as int) * (SCALE as int));
    lemma_fmul_self_nonneg(p.x as int);
    lemma_fmul_self_nonneg(p.y as int);
    lemma_fmul_self_nonneg(p.z as int);
}

/// An accepted candidate normalizes within the box of half-width two, with
/// every step of the normalization in range.
proof fn lemma_candidate_unit(p: Vec3)
    requires
        accepted_candidate(p),
    ensures
        dot_fits(p, p),
        len_sq_spec(p) >= 1,
        fits(fdiv(p.x as int, len_spec(p))),
        fits(fdiv(p.y as int, len_spec(p))),
        fits(fdiv(p.z as int, len_spec(p))),
        comps_within(unit_spec(p), 2 * SCALE as int),
{
    lemma_candidate_dot_fits(p);
    let ls = len_sq_spec(p);
    lemma_sqrt_floor(ls * SCALE);
    let len = len_spec(p);
    assert(len >= 524288) by (nonlinear_arith)
        requires
            len >= 0,
            ls > 262144,
            ls * 1048576 <= ((len as int) + 1) * ((len as int) + 1) - 1,
    ;
    lemma_mul_mag(p.x as int, SCALE as int, SCALE as int, SCALE as int);
    lemma_mul_mag(p.y as int, SCALE as int, SCALE as int, SCALE as int);
    lemma_mul_mag(p.z as int, SCALE as int, SCALE as int, SCALE as int);
    lemma_tdiv_mag_lower((p.x as int) * SCALE, len, (SCALE as int) * (SCALE as int), 524288);
    lemma_tdiv_mag_lower((p.y as int) * SCALE, len, (SCALE as int) * (SCALE as int), 524288);
    lemma_tdiv_mag_lower((p.z as int) * SCALE, len, (SCALE as int) * (SCALE as int), 524288);
}

/// The `+z` axis is its own normalization and an acceptable candidate.
proof fn lemma_axis_unit()
    ensures
        accepted_candidate(Vec3 { x: 0, y: 0, z: SCALE as i64 }),
        unit_spec(Vec3 { x: 0, y: 0, z: SCALE as i64 }) == (Vec3 {
            x: 0,
            y: 0,
            z: SCALE as i64,
        }),
{
    let p = Vec3 { x: 0, y: 0, z: SCALE as i64 };
    assert(fmul(0, 0) == 0);
    assert(fmul(SCALE as int, SCALE as int) == SCALE);
    assert(len_sq_spec(p) == SCALE);
    crate::fixed::lemma_sqrt_floor_unique((SCALE as int) * (SCALE as int), SCALE as int);
    assert(len_spec(p) == SCALE);
    assert(fdiv(0, SCALE as int) == 0);
    assert(fdiv(SCALE as int, SCALE as int) == SCALE);
}

} // verus!
