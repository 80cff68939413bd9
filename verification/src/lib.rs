//! A CPU ray tracer over fixed-point arithmetic.
//!
//! Every real quantity of the renderer (coordinates, colours, ray
//! parameters) is carried as a signed 64-bit integer holding the real
//! value times [`SCALE`]. All arithmetic on such values is exact and
//! verified: each operation states precisely which integer it returns.

use vstd::prelude::*;

pub mod camera;
pub mod colour;
pub mod fixed;
pub mod hit;
pub mod hittable_list;
pub mod interval;
pub mod ray;
pub mod sampler;
pub mod sphere;
pub mod utils;
pub mod vec3;

verus! {

/// The fixed-point unit: an `i64` value `v` stands for the real number
/// `v / SCALE`.
pub const SCALE: i64 = 1048576;

/// The largest component magnitude the intersection tests work with: half
/// the `i64` range, so that exact three-term dot products of in-range
/// vectors stay within `i128` arithmetic.
pub const COORD_LIMIT: i64 = 0x4000000000000000;

} // verus!
