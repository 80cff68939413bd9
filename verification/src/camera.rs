//! The camera: viewport geometry derived from configuration, per-pixel
//! jittered rays, recursive diffuse shading and the render loop.

use vstd::prelude::*;

verus! {

use crate::SCALE;
use crate::colour::{Colour, colour_line_spec, dec_spec, push_decimal, write_colour};
use crate::fixed::{
    fits, fmul, fdiv, add_checked, mul_checked, div_checked, mul_fixed, div_fixed,
    sqrt_fixed, lemma_fmul_one, lemma_fmul_mag, lemma_mul_mag, lemma_fmul_unit_range,
    lemma_tdiv_mag_lower, lemma_tdiv_monotone,
};
use crate::hit::{HitRecord, Hittable};
use crate::interval::Interval;
use crate::ray::{Point, Ray};
use crate::sampler::Sampler;
use crate::vec3::{Vec3, dot_fits, comps_within, len_sq_spec, len_spec};

/// Half of one in fixed point: the real `0.5`.
pub const HALF: i64 = 524288;

/// The green channel of the background's sky colour: the real `0.7` in
/// fixed point, rounded down.
pub const SKY_GREEN: i64 = 734003;

/// The image height derived from width and aspect ratio: the width over
/// the ratio, rounded to nearest, and at least one.
pub open spec fn image_height_spec(aspect: int, w: int) -> int {
    let rounded = (2 * w * (SCALE as int) + aspect) / (2 * aspect);
    if rounded < 1 {
        1
    } else {
        rounded
    }
}

/// The viewport width: the fixed height of two, scaled by the actual
/// width-to-height ratio of the image.
pub open spec fn viewport_width_spec(aspect: int, w: int) -> int {
    fmul(2 * SCALE, fdiv(w * SCALE, image_height_spec(aspect, w) * SCALE))
}

/// The per-pixel step to the right.
pub open spec fn pdu_spec(aspect: int, w: int) -> Vec3 {
    Vec3 {
        x: fdiv(viewport_width_spec(aspect, w), w * SCALE) as i64,
        y: fdiv(0, w * SCALE) as i64,
        z: fdiv(0, w * SCALE) as i64,
    }
}

/// The per-pixel step downward.
pub open spec fn pdv_spec(aspect: int, w: int) -> Vec3 {
    Vec3 {
        x: fdiv(0, image_height_spec(aspect, w) * SCALE) as i64,
        y: fdiv(-2 * SCALE, image_height_spec(aspect, w) * SCALE) as i64,
        z: fdiv(0, image_height_spec(aspect, w) * SCALE) as i64,
    }
}

/// The world position of the viewport's upper-left corner: the camera
/// centre moved back by the focal length and by half the viewport both
/// ways.
pub open spec fn vul_spec(aspect: int, w: int) -> Vec3 {
    Vec3 {
        x: (0 - 0 - fdiv(viewport_width_spec(aspect, w), 2 * SCALE) - fdiv(0, 2 * SCALE)) as i64,
        y: (0 - 0 - fdiv(0, 2 * SCALE) - fdiv(-2 * SCALE, 2 * SCALE)) as i64,
        z: (0 - SCALE - fdiv(0, 2 * SCALE) - fdiv(0, 2 * SCALE)) as i64,
    }
}

/// The world position of the centre of pixel `(0, 0)`: the upper-left
/// corner moved in by half a pixel step each way.
pub open spec fn pixel00_spec(aspect: int, w: int) -> Vec3 {
    let pdu = pdu_spec(aspect, w);
    let pdv = pdv_spec(aspect, w);
    let vul = vul_spec(aspect, w);
    Vec3 {
        x: (vul.x + fmul(pdu.x + pdv.x, HALF as int)) as i64,
        y: (vul.y + fmul(pdu.y + pdv.y, HALF as int)) as i64,
        z: (vul.z + fmul(pdu.z + pdv.z, HALF as int)) as i64,
    }
}

/// The camera: its configuration and the viewport geometry computed once
/// at construction.
pub struct Camera {
    /// Ratio of image width to height, fixed point.
    pub aspect_ratio: i64,
    /// Image width in pixels.
    pub image_width: u32,
    /// Count of random samples per pixel.
    pub samples_per_pixel: u32,
    /// Bounce budget of the recursive shading.
    pub max_depth: u32,
    /// Image height in pixels, derived.
    pub image_height: u32,
    /// Colour scale factor for a sum of pixel samples, fixed point.
    pub pixel_samples_scale: i64,
    /// Centre of the camera.
    pub centre: Point,
    /// World position of the centre of pixel `(0, 0)`.
    pub pixel00_loc: Point,
    /// Offset to the pixel to the right.
    pub pixel_delta_u: Vec3,
    /// Offset to the pixel below.
    pub pixel_delta_v: Vec3,
}

/// The well-formedness of a constructed camera: configuration in range,
/// the derived geometry bounded, axis-aligned steps, and the viewport one
/// focal length ahead.
pub open spec fn camera_wf(c: Camera) -> bool {
    &&& 1 <= c.image_width <= 16384
    &&& 1 <= c.image_height <= 0x400000
    &&& 1 <= c.samples_per_pixel
    &&& 0 <= c.pixel_samples_scale <= SCALE
    &&& c.centre == (Vec3 { x: 0, y: 0, z: 0 })
    &&& comps_within(c.pixel00_loc, 0x1000000000)
    &&& comps_within(c.pixel_delta_u, 0x800000000)
    &&& comps_within(c.pixel_delta_v, 0x200000)
    &&& c.pixel_delta_u.y == 0 && c.pixel_delta_u.z == 0
    &&& c.pixel_delta_v.x == 0 && c.pixel_delta_v.z == 0
    &&& c.pixel00_loc.z == -SCALE
}

impl Camera {
    /// A camera for the given configuration, with every derived quantity
    /// computed once, exactly as specified. The aspect ratio must carry a
    /// real in `[1/128, 128]` and the width must be moderate, so that the
    /// whole viewport geometry stays within fixed-point range.
    pub fn new(aspect_ratio: i64, image_width: u32, samples_per_pixel: u32, max_depth: u32) -> (c:
        Camera)
        requires
            8192 <= aspect_ratio <= 134217728,
            1 <= image_width <= 16384,
            1 <= samples_per_pixel,
        ensures
            c.aspect_ratio == aspect_ratio,
            c.image_width == image_width,
            c.samples_per_pixel == samples_per_pixel,
            c.max_depth == max_depth,
            c.image_height == image_height_spec(aspect_ratio as int, image_width as int),
            c.pixel_samples_scale == (SCALE as int) / (samples_per_pixel as int),
            c.centre == (Vec3 { x: 0, y: 0, z: 0 }),
            c.pixel_delta_u == pdu_spec(aspect_ratio as int, image_width as int),
            c.pixel_delta_v == pdv_spec(aspect_ratio as int, image_width as int),
            c.pixel00_loc == pixel00_spec(aspect_ratio as int, image_width as int),
            camera_wf(c),
    {
        let num: u64 = (image_width as u64) * 2097152 + (aspect_ratio as u64);
        let den: u64 = 2 * (aspect_ratio as u64);
        let q: u64 = num / den;
        let image_height: u32 = if q < 1 {
            1
        } else {
            proof {
                lemma_tdiv_mag_lower(num as int, den as int, num as int, 16384);
            }
            q as u32
        };
        let pixel_samples_scale: i64 = ((SCALE as u64) / (samples_per_pixel as u64)) as i64;
        let wf: i64 = (image_width as i64) * SCALE;
        let hf: i64 = (image_height as i64) * SCALE;
        proof {
            lemma_tdiv_mag_lower((wf as int) * SCALE, hf as int, (wf as int) * SCALE, SCALE as int);
        }
        let ratio = div_fixed(wf, hf);
        proof {
            lemma_mul_mag(2 * SCALE, ratio as int, 2 * SCALE, 0x400000000);
            lemma_fmul_mag(2 * SCALE, ratio as int, 2 * (SCALE as int) * 0x400000000);
        }
        let vw = mul_fixed(2 * SCALE, ratio);
        let viewport_u = Vec3 { x: vw, y: 0, z: 0 };
        let viewport_v = Vec3 { x: 0, y: -2 * SCALE, z: 0 };
        proof {
            lemma_tdiv_mag_lower((vw as int) * SCALE, wf as int, 0x800000000 * (SCALE as int), SCALE as int);
            lemma_tdiv_mag_lower(0, wf as int, 0, SCALE as int);
            lemma_tdiv_mag_lower(0, hf as int, 0, SCALE as int);
            lemma_tdiv_mag_lower((-2 * SCALE) * (SCALE as int), hf as int, 2 * (SCALE as int) * SCALE, SCALE as int);
            lemma_tdiv_mag_lower((vw as int) * SCALE, 2 * SCALE, 0x800000000 * (SCALE as int), SCALE as int);
            lemma_tdiv_mag_lower(0, 2 * SCALE, 0, SCALE as int);
            lemma_tdiv_mag_lower((-2 * SCALE) * (SCALE as int), 2 * SCALE, 2 * (SCALE as int) * SCALE, SCALE as int);
        }
        let pixel_delta_u = viewport_u.div(wf);
        let pixel_delta_v = viewport_v.div(hf);
        let centre = Vec3 { x: 0, y: 0, z: 0 };
        let focal_v = Vec3 { x: 0, y: 0, z: SCALE };
        let half_u = viewport_u.div(2 * SCALE);
        let half_v = viewport_v.div(2 * SCALE);
        let vul = centre.sub(focal_v).sub(half_u).sub(half_v);
        let pd_sum = pixel_delta_u.add(pixel_delta_v);
        proof {
            lemma_mul_mag(pd_sum.x as int, HALF as int, 0x1000000000, HALF as int);
            lemma_fmul_mag(pd_sum.x as int, HALF as int, 0x1000000000 * (HALF as int));
            lemma_mul_mag(pd_sum.y as int, HALF as int, 0x1000000000, HALF as int);
            lemma_fmul_mag(pd_sum.y as int, HALF as int, 0x1000000000 * (HALF as int));
            lemma_mul_mag(pd_sum.z as int, HALF as int, 0x1000000000, HALF as int);
            lemma_fmul_mag(pd_sum.z as int, HALF as int, 0x1000000000 * (HALF as int));
        }
        let pixel00_loc = vul.add(pd_sum.scale(HALF));
        Camera {
            aspect_ratio,
            image_width,
            samples_per_pixel,
            max_depth,
            image_height,
            pixel_samples_scale,
            centre,
            pixel00_loc,
            pixel_delta_u,
            pixel_delta_v,
        }
    }

    /// Appends the encoded line of one pixel to the output buffer.
    pub fn write_colour(v: &mut Vec<u8>, colour: &Colour)
        ensures
            final(v)@ == old(v)@ + colour_line_spec(*colour),
    {
        write_colour(v, colour);
    }

    /// A jitter offset: both axes drawn uniformly from `[-0.5, +0.5)`.
    pub fn sample_square(sampler: &mut Sampler) -> (o: Vec3)
        ensures
            -524288 <= o.x < 524288,
            -524288 <= o.y < 524288,
            o.z == 0,
    {
        let ux = sampler.next_unit();
        let uy = sampler.next_unit();
        Vec3 { x: ux - HALF, y: uy - HALF, z: 0 }
    }

    /// A ray from the camera centre toward a jittered point inside pixel
    /// `(i, j)`.
    pub fn get_ray(&self, i: u32, j: u32, sampler: &mut Sampler) -> (r: Ray)
        requires
            camera_wf(*self),
            i < self.image_width,
            j < self.image_height,
        ensures
            r.origin == self.centre,
            r.direction.z == -SCALE,
            comps_within(r.direction, 0x8000000000000),
            exists|ox: int, oy: int|
                -524288 <= ox < 524288 && -524288 <= oy < 524288 && r.direction
                    == #[trigger] ray_dir_spec(*self, i as int, j as int, ox, oy),
    {
        let offset = Self::sample_square(sampler);
        let sx: i64 = (i as i64) * SCALE + offset.x;
        let sy: i64 = (j as i64) * SCALE + offset.y;
        proof {
            lemma_mul_mag(self.pixel_delta_u.x as int, sx as int, 0x800000000, 0x800000000);
            lemma_fmul_mag(self.pixel_delta_u.x as int, sx as int, 0x800000000int * 0x800000000);
            lemma_mul_mag(self.pixel_delta_v.y as int, sy as int, 0x200000, 0x80000000000);
            lemma_fmul_mag(self.pixel_delta_v.y as int, sy as int, 0x200000int * 0x80000000000);
        }
        let du = self.pixel_delta_u.scale(sx);
        let dv = self.pixel_delta_v.scale(sy);
        let sample = self.pixel00_loc.add(du).add(dv);
        let dir = sample.sub(self.centre);
        let r = Ray { origin: self.centre, direction: dir };
        proof {
            assert(r.direction == ray_dir_spec(
                *self,
                i as int,
                j as int,
                offset.x as int,
                offset.y as int,
            ));
        }
        r
    }

    /// The recursive shading. Black at exhausted depth. On a hit, half
    /// the colour of a random bounce off the surface. On a miss, the
    /// vertical background gradient from white to sky blue (black where
    /// the direction cannot be normalized in range). Components always
    /// lie in `[0, 1]`.
    pub fn ray_colour<T: Hittable>(
        r: &Ray,
        world: &T,
        depth: u32,
        sampler: &mut Sampler,
    ) -> (c: Colour)
        ensures
            0 <= c.x <= SCALE,
            0 <= c.y <= SCALE,
            0 <= c.z <= SCALE,
            depth == 0 ==> c == (Vec3 { x: 0, y: 0, z: 0 }),
            depth > 0 && world.spec_hit(*r, 0, i64::MAX as int) ==> c.x <= HALF && c.y <= HALF
                && c.z <= HALF,
            depth > 0 && !world.spec_hit(*r, 0, i64::MAX as int) && bg_ok(*r) ==> c
                == background_spec(*r),
        decreases depth,
    {
        if depth == 0 {
            return Vec3 { x: 0, y: 0, z: 0 };
        }
        let mut rec = HitRecord::default();
        let inf = Interval::new(0, i64::MAX);
        if world.hit(r, &inf, &mut rec) {
            let direction = Vec3::random_on_hemisphere(sampler, &rec.norm);
            let bounce = Ray::new(rec.p, direction);
            let sub = Self::ray_colour(&bounce, world, depth - 1, sampler);
            proof {
                lemma_fmul_unit_range(sub.x as int, HALF as int);
                lemma_fmul_unit_range(sub.y as int, HALF as int);
                lemma_fmul_unit_range(sub.z as int, HALF as int);
                lemma_fmul_one(HALF as int);
                lemma_tdiv_monotone(
                    (sub.x as int) * (HALF as int),
                    (SCALE as int) * (HALF as int),
                    SCALE as int,
                );
                lemma_tdiv_monotone(
                    (sub.y as int) * (HALF as int),
                    (SCALE as int) * (HALF as int),
                    SCALE as int,
                );
                lemma_tdiv_monotone(
                    (sub.z as int) * (HALF as int),
                    (SCALE as int) * (HALF as int),
                    SCALE as int,
                );
            }
            return sub.scale(HALF);
        }
        let d = r.direction;
        let pxx = match mul_checked(d.x, d.x) {
            Some(v) => v,
            None => { return Vec3 { x: 0, y: 0, z: 0 }; },
        };
        let pyy = match mul_checked(d.y, d.y) {
            Some(v) => v,
            None => { return Vec3 { x: 0, y: 0, z: 0 }; },
        };
        let pzz = match mul_checked(d.z, d.z) {
            Some(v) => v,
            None => { return Vec3 { x: 0, y: 0, z: 0 }; },
        };
        let pxy = match add_checked(pxx, pyy) {
            Some(v) => v,
            None => { return Vec3 { x: 0, y: 0, z: 0 }; },
        };
        let ls = match add_checked(pxy, pzz) {
            Some(v) => v,
            None => { return Vec3 { x: 0, y: 0, z: 0 }; },
        };
        if ls < 1 {
            return Vec3 { x: 0, y: 0, z: 0 };
        }
        let len = sqrt_fixed(ls);
        proof {
            assert(len >= 1) by (nonlinear_arith)
                requires
                    len >= 0,
                    ls >= 1,
                    (ls as int) * 1048576 < ((len as int) + 1) * ((len as int) + 1),
            ;
        }
        let uy = match div_checked(d.y, len) {
            Some(v) => v,
            None => { return Vec3 { x: 0, y: 0, z: 0 }; },
        };
        let ays = match add_checked(uy, SCALE) {
            Some(v) => v,
            None => { return Vec3 { x: 0, y: 0, z: 0 }; },
        };
        let araw = match mul_checked(HALF, ays) {
            Some(v) => v,
            None => { return Vec3 { x: 0, y: 0, z: 0 }; },
        };
        let a: i64 = if araw < 0 {
            0
        } else if araw > SCALE {
            SCALE
        } else {
            araw
        };
        let white = Vec3 { x: SCALE, y: SCALE, z: SCALE };
        let sky = Vec3 { x: HALF, y: SKY_GREEN, z: SCALE };
        proof {
            lemma_fmul_one((SCALE - a) as int);
            lemma_fmul_one(a as int);
            lemma_fmul_unit_range(a as int, HALF as int);
            lemma_fmul_unit_range(a as int, SKY_GREEN as int);
            assert((HALF as int) * (a as int) == (a as int) * (HALF as int)) by (nonlinear_arith);
            assert((SKY_GREEN as int) * (a as int) == (a as int) * (SKY_GREEN as int))
                by (nonlinear_arith);
        }
        let base = white.scale(SCALE - a);
        let tint = sky.scale(a);
        base.add(tint)
    }

    /// Renders the scene: pixel rows top to bottom, columns left to
    /// right; each pixel the scaled sum of `samples_per_pixel` jittered
    /// samples, encoded into the textual image stream.
    pub fn render<T: Hittable>(&self, world: &T, sampler: &mut Sampler) -> (out: Vec<u8>)
        requires
            camera_wf(*self),
        ensures
            exists|pixels: Seq<Vec3>|
                out@ == #[trigger] ppm_spec(
                    self.image_width as int,
                    self.image_height as int,
                    pixels,
                ) && pixels.len() == (self.image_width as int) * (self.image_height as int),
    {
        let ghost w = self.image_width as int;
        let ghost h = self.image_height as int;
        let mut out: Vec<u8> = Vec::new();
        out.push(80);
        out.push(51);
        out.push(10);
        push_decimal(&mut out, self.image_width as u64);
        out.push(32);
        push_decimal(&mut out, self.image_height as u64);
        out.push(10);
        out.push(50);
        out.push(53);
        out.push(53);
        out.push(10);
        proof {
            assert(out@ =~= ppm_header_spec(w, h));
            assert(out@ =~= ppm_spec(w, h, Seq::<Vec3>::empty()));
        }
        let ghost mut pixels: Seq<Vec3> = Seq::empty();
        let mut j: u32 = 0;
        while j < self.image_height
            invariant
                camera_wf(*self),
                w == self.image_width as int,
                h == self.image_height as int,
                j <= self.image_height,
                pixels.len() == (j as int) * w,
                out@ == ppm_spec(w, h, pixels),
            decreases self.image_height - j,
        {
            let mut i: u32 = 0;
            while i < self.image_width
                invariant
                    camera_wf(*self),
                    w == self.image_width as int,
                    h == self.image_height as int,
                    j < self.image_height,
                    i <= self.image_width,
                    pixels.len() == (j as int) * w + i as int,
                    out@ == ppm_spec(w, h, pixels),
                decreases self.image_width - i,
            {
                let mut acc = Vec3 { x: 0, y: 0, z: 0 };
                let mut k: u32 = 0;
                while k < self.samples_per_pixel
                    invariant
                        camera_wf(*self),
                        i < self.image_width,
                        j < self.image_height,
                        k <= self.samples_per_pixel,
                        0 <= acc.x <= (k as int) * (SCALE as int),
                        0 <= acc.y <= (k as int) * (SCALE as int),
                        0 <= acc.z <= (k as int) * (SCALE as int),
                    decreases self.samples_per_pixel - k,
                {
                    let ray = self.get_ray(i, j, sampler);
                    let col = Self::ray_colour(&ray, world, self.max_depth, sampler);
                    acc = acc.add(col);
                    k = k + 1;
                }
                proof {
                    lemma_mul_mag(
                        acc.x as int,
                        self.pixel_samples_scale as int,
                        0x10000000000000,
                        SCALE as int,
                    );
                    lemma_fmul_mag(
                        acc.x as int,
                        self.pixel_samples_scale as int,
                        0x10000000000000 * (SCALE as int),
                    );
                    lemma_mul_mag(
                        acc.y as int,
                        self.pixel_samples_scale as int,
                        0x10000000000000,
                        SCALE as int,
                    );
                    lemma_fmul_mag(
                        acc.y as int,
                        self.pixel_samples_scale as int,
                        0x10000000000000 * (SCALE as int),
                    );
                    lemma_mul_mag(
                        acc.z as int,
                        self.pixel_samples_scale as int,
                        0x10000000000000,
                        SCALE as int,
                    );
                    lemma_fmul_mag(
                        acc.z as int,
                        self.pixel_samples_scale as int,
                        0x10000000000000 * (SCALE as int),
                    );
                }
                let pixel = acc.scale(self.pixel_samples_scale);
                Self::write_colour(&mut out, &pixel);
                proof {
                    let prev = pixels;
                    pixels = pixels.push(pixel);
                    assert(pixels.drop_last() =~= prev);
                    assert(pixels.last() == pixel);
                    assert(out@ =~= ppm_spec(w, h, pixels));
                }
                i = i + 1;
            }
            proof {
                assert(((j as int) + 1) * w == (j as int) * w + w) by (nonlinear_arith);
            }
            j = j + 1;
        }
        proof {
            assert((h * w) == (w * h)) by (nonlinear_arith);
            assert(pixels.len() == w * h);
        }
        out
    }
}

/// The jittered ray direction toward pixel `(i, j)` with jitter `(ox,
/// oy)`: from the camera centre to
/// `pixel00 + (i + ox) * delta_u + (j + oy) * delta_v`.
pub open spec fn ray_dir_spec(c: Camera, i: int, j: int, ox: int, oy: int) -> Vec3 {
    let sx = i * SCALE + ox;
    let sy = j * SCALE + oy;
    Vec3 {
        x: (c.pixel00_loc.x + fmul(c.pixel_delta_u.x as int, sx) + fmul(
            c.pixel_delta_v.x as int,
            sy,
        ) - 0) as i64,
        y: (c.pixel00_loc.y + fmul(c.pixel_delta_u.y as int, sx) + fmul(
            c.pixel_delta_v.y as int,
            sy,
        ) - 0) as i64,
        z: (c.pixel00_loc.z + fmul(c.pixel_delta_u.z as int, sx) + fmul(
            c.pixel_delta_v.z as int,
            sy,
        ) - 0) as i64,
    }
}

/// The shading domain of the background: the direction can be normalized
/// and blended within fixed-point range.
pub open spec fn bg_ok(r: Ray) -> bool {
    &&& dot_fits(r.direction, r.direction)
    &&& len_sq_spec(r.direction) >= 1
    &&& fits(fdiv(r.direction.y as int, len_spec(r.direction)))
    &&& fits(fdiv(r.direction.y as int, len_spec(r.direction)) + SCALE)
    &&& fits(fmul(HALF as int, fdiv(r.direction.y as int, len_spec(r.direction)) + SCALE))
}

/// The background gradient: white blended toward sky blue, linearly in
/// the y component of the unit direction; the blend factor is clamped
/// into `[0, 1]` against normalization rounding.
pub open spec fn background_spec(r: Ray) -> Vec3 {
    let uy = fdiv(r.direction.y as int, len_spec(r.direction));
    let araw = fmul(HALF as int, uy + SCALE);
    let a = if araw < 0 {
        0
    } else if araw > SCALE {
        SCALE as int
    } else {
        araw
    };
    Vec3 {
        x: (fmul(SCALE as int, SCALE - a) + fmul(HALF as int, a)) as i64,
        y: (fmul(SCALE as int, SCALE - a) + fmul(SKY_GREEN as int, a)) as i64,
        z: (fmul(SCALE as int, SCALE - a) + fmul(SCALE as int, a)) as i64,
    }
}

/// The header of the textual image format: tag, dimensions, and the
/// maximum channel value.
pub open spec fn ppm_header_spec(w: int, h: int) -> Seq<u8> {
    seq![80u8, 51u8, 10u8] + dec_spec(w) + seq![32u8] + dec_spec(h) + seq![10u8] + seq![
        50u8,
        53u8,
        53u8,
        10u8,
    ]
}

/// The pixel lines of a sequence of colours, in order.
pub open spec fn lines_spec(pixels: Seq<Vec3>) -> Seq<u8>
    decreases pixels.len(),
{
    if pixels.len() == 0 {
        Seq::empty()
    } else {
        lines_spec(pixels.drop_last()) + colour_line_spec(pixels.last())
    }
}

/// The whole byte stream of a rendered image: header then pixel lines in
/// row-major order.
pub open spec fn ppm_spec(w: int, h: int, pixels: Seq<Vec3>) -> Seq<u8> {
    ppm_header_spec(w, h) + lines_spec(pixels)
}

} // verus!
