//! Scalar fixed-point arithmetic: exact integer semantics for the real
//! arithmetic of the renderer.
//!
//! A scalar is an `i64` holding the real value times [`crate::SCALE`].
//! Products and quotients are rounded toward zero, square roots are
//! rounded down; each operation's contract pins the exact integer result.

use vstd::prelude::*;

verus! {

use crate::SCALE;

/// Absolute value of a mathematical integer.
pub open spec fn iabs(a: int) -> int {
    if a >= 0 {
        a
    } else {
        -a
    }
}

/// Truncating (round-toward-zero) integer division, the rounding used by
/// machine division. Meaningful only for `b != 0`.
pub open spec fn tdiv(a: int, b: int) -> int {
    if (a < 0) == (b < 0) {
        iabs(a) / iabs(b)
    } else {
        -(iabs(a) / iabs(b))
    }
}

/// The fixed-point product: the integer carrying the real product of the
/// reals carried by `a` and `b`, rounded toward zero.
pub open spec fn fmul(a: int, b: int) -> int {
    tdiv(a * b, SCALE as int)
}

/// The fixed-point quotient: the integer carrying the real quotient of the
/// reals carried by `a` and `b`, rounded toward zero. Meaningful only for
/// `b != 0`.
pub open spec fn fdiv(a: int, b: int) -> int {
    tdiv(a * SCALE, b)
}

/// Whether a mathematical integer is representable as an `i64`.
pub open spec fn fits(a: int) -> bool {
    i64::MIN <= a <= i64::MAX
}

/// `r` is the square root of `n`, rounded down.
pub open spec fn is_sqrt_floor(n: int, r: int) -> bool {
    &&& 0 <= r
    &&& r * r <= n
    &&& n < (r + 1) * (r + 1)
}

/// The square root of `n`, rounded down; meaningful only for `n >= 0`.
pub closed spec fn sqrt_floor(n: int) -> int {
    choose|r: int| #[trigger] is_sqrt_floor(n, r)
}

proof fn lemma_sqrt_floor_exists(n: int)
    requires
        n >= 0,
    ensures
        exists|r: int| #[trigger] is_sqrt_floor(n, r),
    decreases n,
{
    if n == 0 {
        assert(is_sqrt_floor(0, 0));
    } else {
        lemma_sqrt_floor_exists(n - 1);
        let r0 = choose|r: int| #[trigger] is_sqrt_floor(n - 1, r);
        if (r0 + 1) * (r0 + 1) <= n {
            assert((r0 + 1 + 1) * (r0 + 1 + 1) > n) by (nonlinear_arith)
                requires
                    n - 1 < (r0 + 1) * (r0 + 1),
                    (r0 + 1) * (r0 + 1) <= n,
                    r0 >= 0,
            ;
            assert(is_sqrt_floor(n, r0 + 1));
        } else {
            assert(is_sqrt_floor(n, r0));
        }
    }
}

/// The defining property of [`sqrt_floor`] holds for every nonnegative `n`.
pub proof fn lemma_sqrt_floor(n: int)
    requires
        n >= 0,
    ensures
        is_sqrt_floor(n, sqrt_floor(n)),
{
    lemma_sqrt_floor_exists(n);
}

/// Any value satisfying the rounded-down square root property is
/// [`sqrt_floor`]: the property has a unique solution.
pub proof fn lemma_sqrt_floor_unique(n: int, r: int)
    requires
        is_sqrt_floor(n, r),
    ensures
        r == sqrt_floor(n),
{
    lemma_sqrt_floor(n);
    let s = sqrt_floor(n);
    if r < s {
        assert(s * s > n) by (nonlinear_arith)
            requires
                r >= 0,
                s >= r + 1,
                n < (r + 1) * (r + 1),
        ;
    }
    if s < r {
        assert(r * r > n) by (nonlinear_arith)
            requires
                s >= 0,
                r >= s + 1,
                n < (s + 1) * (s + 1),
        ;
    }
}

/// The magnitude of a truncating quotient is the quotient of the
/// magnitudes.
pub proof fn lemma_tdiv_mag(a: int, b: int)
    requires
        b != 0,
    ensures
        iabs(tdiv(a, b)) == iabs(a) / iabs(b),
        tdiv(a, b) >= 0 || tdiv(a, b) == -(iabs(a) / iabs(b)),
{
    vstd::arithmetic::div_mod::lemma_div_pos_is_pos(iabs(a), iabs(b));
}

/// A magnitude bound on the inputs of a fixed-point product bounds its
/// result: `|a * b| <= m` gives `|fmul(a, b)| <= m / SCALE`.
pub proof fn lemma_fmul_mag(a: int, b: int, m: int)
    requires
        iabs(a * b) <= m,
    ensures
        iabs(fmul(a, b)) <= m / (SCALE as int),
{
    lemma_tdiv_mag(a * b, SCALE as int);
    vstd::arithmetic::div_mod::lemma_div_is_ordered(iabs(a * b), m, SCALE as int);
}

/// The magnitude of an integer product is the product of the magnitudes,
/// so input bounds multiply.
pub proof fn lemma_mul_mag(a: int, b: int, ma: int, mb: int)
    requires
        iabs(a) <= ma,
        iabs(b) <= mb,
    ensures
        iabs(a * b) <= ma * mb,
{
    assert(iabs(a * b) <= ma * mb) by (nonlinear_arith)
        requires
            iabs(a) <= ma,
            iabs(b) <= mb,
    ;
}

/// A fixed-point product with a factor drawn from `[0, SCALE)` stays
/// between zero and the other, nonnegative factor.
pub proof fn lemma_fmul_unit_range(d: int, u: int)
    requires
        d >= 0,
        0 <= u < SCALE,
    ensures
        0 <= fmul(d, u) <= d,
{
    assert(0 <= d * u && d * u <= d * (SCALE as int)) by (nonlinear_arith)
        requires
            d >= 0,
            0 <= u < SCALE,
    ;
    vstd::arithmetic::div_mod::lemma_div_pos_is_pos(d * u, SCALE as int);
    vstd::arithmetic::div_mod::lemma_div_is_ordered(d * u, d * (SCALE as int), SCALE as int);
    vstd::arithmetic::div_mod::lemma_div_multiples_vanish(d, SCALE as int);
}

/// Dividing a magnitude-bounded scalar by a denominator at least `lo`
/// bounds the quotient: `|tdiv(a, b)| * lo <= m`.
pub proof fn lemma_tdiv_mag_lower(a: int, b: int, m: int, lo: int)
    requires
        iabs(a) <= m,
        b >= lo,
        lo > 0,
    ensures
        iabs(tdiv(a, b)) * lo <= m,
{
    lemma_tdiv_mag(a, b);
    let q = iabs(a) / iabs(b);
    vstd::arithmetic::div_mod::lemma_fundamental_div_mod(iabs(a), iabs(b));
    vstd::arithmetic::div_mod::lemma_div_pos_is_pos(iabs(a), iabs(b));
    assert(q * lo <= q * b) by (nonlinear_arith)
        requires
            q >= 0,
            0 < lo <= b,
    ;
    assert(q * b <= iabs(a)) by (nonlinear_arith)
        requires
            iabs(a) == iabs(b) * q + iabs(a) % iabs(b),
            iabs(a) % iabs(b) >= 0,
            iabs(b) == b,
    ;
}

/// `SCALE` carries the real one: multiplying by it in fixed point is the
/// identity.
pub proof fn lemma_fmul_one(a: int)
    ensures
        fmul(a, SCALE as int) == a,
        fmul(SCALE as int, a) == a,
{
    assert(iabs(a * SCALE) == iabs(a) * SCALE && a * SCALE == SCALE * a) by (nonlinear_arith)
        requires
            SCALE == 1048576,
    ;
    vstd::arithmetic::div_mod::lemma_div_multiples_vanish(iabs(a), SCALE as int);
}

/// Truncating division by a positive divisor is monotone in the
/// numerator.
pub proof fn lemma_tdiv_monotone(a1: int, a2: int, b: int)
    requires
        a1 <= a2,
        b > 0,
    ensures
        tdiv(a1, b) <= tdiv(a2, b),
{
    if a1 >= 0 {
        vstd::arithmetic::div_mod::lemma_div_is_ordered(a1, a2, b);
    } else if a2 < 0 {
        vstd::arithmetic::div_mod::lemma_div_is_ordered(-a2, -a1, b);
    } else {
        vstd::arithmetic::div_mod::lemma_div_pos_is_pos(-a1, b);
        vstd::arithmetic::div_mod::lemma_div_pos_is_pos(a2, b);
    }
}

/// A fixed-point square is nonnegative.
pub proof fn lemma_fmul_self_nonneg(a: int)
    ensures
        fmul(a, a) >= 0,
{
    assert(a * a >= 0) by (nonlinear_arith);
    vstd::arithmetic::div_mod::lemma_div_pos_is_pos(a * a, SCALE as int);
}

/// Adds two scalars, reporting `None` when the sum leaves the `i64` range.
pub fn add_checked(a: i64, b: i64) -> (r: Option<i64>)
    ensures
        match r {
            Some(v) => v == a + b,
            None => !fits(a + b),
        },
{
    let w: i128 = a as i128 + b as i128;
    if w >= i64::MIN as i128 && w <= i64::MAX as i128 {
        Some(w as i64)
    } else {
        None
    }
}

/// Subtracts two scalars, reporting `None` when the difference leaves the
/// `i64` range.
pub fn sub_checked(a: i64, b: i64) -> (r: Option<i64>)
    ensures
        match r {
            Some(v) => v == a - b,
            None => !fits(a - b),
        },
{
    let w: i128 = a as i128 - b as i128;
    if w >= i64::MIN as i128 && w <= i64::MAX as i128 {
        Some(w as i64)
    } else {
        None
    }
}

proof fn lemma_i64_product_in_i128(a: int, b: int)
    requires
        -0x8000000000000000 <= a <= 0x7fffffffffffffff,
        -0x8000000000000000 <= b <= 0x7fffffffffffffff,
    ensures
        -0x40000000000000000000000000000000 <= a * b
            <= 0x40000000000000000000000000000000,
{
    assert(-0x40000000000000000000000000000000 <= a * b
        <= 0x40000000000000000000000000000000) by (nonlinear_arith)
        requires
            -0x8000000000000000 <= a <= 0x7fffffffffffffff,
            -0x8000000000000000 <= b <= 0x7fffffffffffffff,
    ;
}

/// Multiplies two scalars, reporting `None` when the product leaves the
/// `i64` range.
pub fn mul_checked(a: i64, b: i64) -> (r: Option<i64>)
    ensures
        match r {
            Some(v) => v == fmul(a as int, b as int),
            None => !fits(fmul(a as int, b as int)),
        },
{
    proof {
        lemma_i64_product_in_i128(a as int, b as int);
    }
    let p: i128 = (a as i128) * (b as i128);
    let q: i128 = if p >= 0 {
        ((p as u128) / (SCALE as u128)) as i128
    } else {
        -((((-p) as u128) / (SCALE as u128)) as i128)
    };
    if q >= i64::MIN as i128 && q <= i64::MAX as i128 {
        Some(q as i64)
    } else {
        None
    }
}

/// Divides two scalars, reporting `None` when `b` is zero or the quotient
/// leaves the `i64` range.
pub fn div_checked(a: i64, b: i64) -> (r: Option<i64>)
    ensures
        match r {
            Some(v) => b != 0 && v == fdiv(a as int, b as int),
            None => b == 0 || !fits(fdiv(a as int, b as int)),
        },
{
    if b == 0 {
        return None;
    }
    proof {
        lemma_i64_product_in_i128(a as int, SCALE as int);
    }
    let n: i128 = (a as i128) * (SCALE as i128);
    let d: i128 = b as i128;
    let neg: bool = (n < 0) != (d < 0);
    let un: u128 = if n >= 0 {
        n as u128
    } else {
        (-n) as u128
    };
    let ud: u128 = if d >= 0 {
        d as u128
    } else {
        (-d) as u128
    };
    let uq: u128 = un / ud;
    let q: i128 = if neg {
        -(uq as i128)
    } else {
        uq as i128
    };
    if q >= i64::MIN as i128 && q <= i64::MAX as i128 {
        Some(q as i64)
    } else {
        None
    }
}

/// Multiplies two scalars whose product is known to stay in range.
pub fn mul_fixed(a: i64, b: i64) -> (r: i64)
    requires
        fits(fmul(a as int, b as int)),
    ensures
        r == fmul(a as int, b as int),
{
    mul_checked(a, b).unwrap()
}

/// Divides two scalars whose quotient is known to stay in range.
pub fn div_fixed(a: i64, b: i64) -> (r: i64)
    requires
        b != 0,
        fits(fdiv(a as int, b as int)),
    ensures
        r == fdiv(a as int, b as int),
{
    div_checked(a, b).unwrap()
}

/// The square root of an unsigned 128-bit integer, rounded down.
fn isqrt_u128(n: u128) -> (r: u128)
    ensures
        is_sqrt_floor(n as int, r as int),
{
    let mut lo: u128 = 0;
    let mut hi: u128 = 18446744073709551616;
    assert((18446744073709551616int) * (18446744073709551616int) > u128::MAX) by (nonlinear_arith);
    while lo + 1 < hi
        invariant
            lo < hi <= 18446744073709551616,
            lo * lo <= n,
            n < hi * hi,
        decreases hi - lo,
    {
        let mid: u128 = lo + (hi - lo) / 2;
        assert(lo < mid < hi);
        assert(mid * mid <= u128::MAX) by (nonlinear_arith)
            requires
                0 < mid < 18446744073709551616,
        ;
        if mid * mid <= n {
            lo = mid;
        } else {
            hi = mid;
        }
    }
    lo
}

/// The fixed-point square root of a nonnegative scalar, rounded down:
/// the result `r` carries the largest multiple of `1 / SCALE` whose square
/// is at most the real value carried by `x`.
pub fn sqrt_fixed(x: i64) -> (r: i64)
    requires
        x >= 0,
    ensures
        r >= 0,
        r == sqrt_floor(x * SCALE),
        is_sqrt_floor(x * SCALE, r as int),
{
    assert((x as int) * (SCALE as int) < 9671406556917033397649408) by (nonlinear_arith)
        requires
            0 <= x <= 0x7fffffffffffffff,
    ;
    let n: u128 = (x as u128) * (SCALE as u128);
    let s = isqrt_u128(n);
    assert(s < 4398046511104) by (nonlinear_arith)
        requires
            s * s <= n,
            n < 9671406556917033397649408,
    ;
    proof {
        lemma_sqrt_floor_unique(x * SCALE, s as int);
    }
    s as i64
}

} // verus!
