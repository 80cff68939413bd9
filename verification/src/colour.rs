//! Colour output: encoding fixed-point colours as lines of the textual
//! image format, three decimal channel values per pixel.

use vstd::prelude::*;

verus! {

use crate::SCALE;
use crate::vec3::Vec3;

/// A vector read as a colour with components in `[0, 1]`.
pub type Colour = Vec3;

/// The ceiling of the encoding clamp: the real `0.999` in fixed point,
/// rounded down. Clamping to it rather than to one keeps a saturated
/// channel from encoding past 255.
pub const INTENSITY_MAX: i64 = 1047527;

/// One channel encoded to a byte value: the scalar clamped into
/// `[0, 0.999]`, multiplied by 256, truncated toward zero.
pub open spec fn encode_channel(c: int) -> int {
    let clamped = if c < 0 {
        0
    } else if c > INTENSITY_MAX {
        INTENSITY_MAX as int
    } else {
        c
    };
    (clamped * 256) / (SCALE as int)
}

/// The decimal digits of a nonnegative integer, as ASCII bytes.
pub open spec fn dec_spec(n: int) -> Seq<u8>
    decreases n,
{
    if n < 10 {
        seq![(48 + (if n < 0 { 0int } else { n })) as u8]
    } else {
        dec_spec(n / 10).push((48 + n % 10) as u8)
    }
}

/// The encoded line of one pixel: the three channel values in decimal,
/// space-separated, newline-terminated.
pub open spec fn colour_line_spec(c: Vec3) -> Seq<u8> {
    dec_spec(encode_channel(c.x as int)) + seq![32u8] + dec_spec(encode_channel(c.y as int))
        + seq![32u8] + dec_spec(encode_channel(c.z as int)) + seq![10u8]
}

/// Channel encoding is monotonic in the scalar.
pub proof fn lemma_encode_monotone(a: int, b: int)
    requires
        a <= b,
    ensures
        encode_channel(a) <= encode_channel(b),
{
    let ca = if a < 0 {
        0
    } else if a > INTENSITY_MAX {
        INTENSITY_MAX as int
    } else {
        a
    };
    let cb = if b < 0 {
        0
    } else if b > INTENSITY_MAX {
        INTENSITY_MAX as int
    } else {
        b
    };
    vstd::arithmetic::div_mod::lemma_div_is_ordered(ca * 256, cb * 256, SCALE as int);
}

/// Every encoding lands in the byte range.
pub proof fn lemma_encode_bounds(c: int)
    ensures
        0 <= encode_channel(c) <= 255,
{
    let clamped = if c < 0 {
        0
    } else if c > INTENSITY_MAX {
        INTENSITY_MAX as int
    } else {
        c
    };
    vstd::arithmetic::div_mod::lemma_div_pos_is_pos(clamped * 256, SCALE as int);
    vstd::arithmetic::div_mod::lemma_div_is_ordered(
        clamped * 256,
        (INTENSITY_MAX as int) * 256,
        SCALE as int,
    );
}

/// One channel encoded to its byte.
pub fn encode_channel_byte(c: i64) -> (b: u8)
    ensures
        b as int == encode_channel(c as int),
{
    proof {
        lemma_encode_bounds(c as int);
    }
    let clamped: i64 = if c < 0 {
        0
    } else if c > INTENSITY_MAX {
        INTENSITY_MAX
    } else {
        c
    };
    (((clamped as u64) * 256) / (SCALE as u64)) as u8
}

/// Appends the decimal digits of `n`.
pub fn push_decimal(out: &mut Vec<u8>, n: u64)
    ensures
        final(out)@ == old(out)@ + dec_spec(n as int),
    decreases n,
{
    if n < 10 {
        out.push((48 + n) as u8);
        assert(out@ =~= old(out)@ + dec_spec(n as int));
    } else {
        push_decimal(out, n / 10);
        out.push(48 + (n % 10) as u8);
        assert(out@ =~= old(out)@ + dec_spec(n as int));
    }
}

/// Appends the encoded line of one pixel to the output buffer.
pub fn write_colour(v: &mut Vec<u8>, colour: &Colour)
    ensures
        final(v)@ == old(v)@ + colour_line_spec(*colour),
{
    let rb = encode_channel_byte(colour.x);
    let gb = encode_channel_byte(colour.y);
    let bb = encode_channel_byte(colour.z);
    push_decimal(v, rb as u64);
    v.push(32);
    push_decimal(v, gb as u64);
    v.push(32);
    push_decimal(v, bb as u64);
    v.push(10);
    assert(v@ =~= old(v)@ + colour_line_spec(*colour));
}

} // verus!
