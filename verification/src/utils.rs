//! Small numeric helpers.

use vstd::prelude::*;

verus! {

use crate::fixed::{fdiv, fmul, iabs, lemma_fmul_mag, lemma_mul_mag, lemma_tdiv_mag_lower};

/// The circle constant in fixed point, rounded down.
pub const PI_FIXED: i64 = 3294198;

/// The real 180 in fixed point.
pub const DEG_HALF_TURN: i64 = 188743680;

/// Converts an angle from degrees to radians: `d * pi / 180` in fixed
/// point.
pub fn degrees_to_radians(degrees: i64) -> (r: i64)
    requires
        iabs(degrees as int) <= 0x10000000000,
    ensures
        r == fdiv(fmul(degrees as int, PI_FIXED as int), DEG_HALF_TURN as int),
{
    proof {
        lemma_mul_mag(degrees as int, PI_FIXED as int, 0x10000000000, 0x400000);
        lemma_fmul_mag(degrees as int, PI_FIXED as int, 0x10000000000int * 0x400000);
        lemma_tdiv_mag_lower(
            fmul(degrees as int, PI_FIXED as int) * 1048576,
            DEG_HALF_TURN as int,
            0x40000000000000int * 1048576,
            1048576,
        );
    }
    let scaled = crate::fixed::mul_fixed(degrees, PI_FIXED);
    crate::fixed::div_fixed(scaled, DEG_HALF_TURN)
}

} // verus!
