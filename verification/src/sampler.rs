//! The randomness capability of the renderer.
//!
//! Every draw the renderer makes goes through a [`Sampler`], as a scalar in
//! `[0, SCALE)` (a real in `[0, 1)`). A sampler is either seeded, backed by
//! a pseudo-random generator, or fixed, replaying a given sequence of
//! values: the fixed form makes every render reproducible value for value.

use vstd::prelude::*;

verus! {

use crate::SCALE;

/// Projects an arbitrary scalar into `[0, SCALE)`, the range of one draw.
pub open spec fn clamp_unit(v: int) -> int {
    if v < 0 {
        0
    } else if v >= SCALE {
        SCALE - 1
    } else {
        v
    }
}

#[verifier::external_type_specification]
#[verifier::external_body]
pub struct ExStdRng(rand::rngs::StdRng);

/// Relies on rand's `SeedableRng::seed_from_u64`: builds a generator from a
/// 64-bit seed.
#[verifier::external_body]
fn rng_from_seed(seed: u64) -> rand::rngs::StdRng {
    <rand::rngs::StdRng as rand::SeedableRng>::seed_from_u64(seed)
}

/// Relies on rand's `RngExt::random_range`: a draw from the non-empty
/// half-open range `0..SCALE` lies in that range.
#[verifier::external_body]
fn draw_unit(rng: &mut rand::rngs::StdRng) -> (r: i64)
    ensures
        0 <= r < SCALE,
{
    rand::RngExt::random_range(rng, 0..SCALE)
}

/// A source of scalar draws in `[0, SCALE)`.
pub enum Sampler {
    /// Replays `values` in order, cyclically, each projected into range;
    /// an empty sequence yields zeroes. `next` is the position of the
    /// coming draw.
    Fixed { values: Vec<i64>, next: usize },
    /// Draws from a seeded pseudo-random generator.
    Seeded { rng: rand::rngs::StdRng },
}

impl Sampler {
    /// A sampler that replays the given values cyclically.
    pub fn fixed(values: Vec<i64>) -> (s: Sampler)
        ensures
            s == (Sampler::Fixed { values, next: 0usize }),
    {
        Sampler::Fixed { values, next: 0 }
    }

    /// A pseudo-random sampler; equal seeds give equal draw sequences
    /// within one build of the generator.
    pub fn seeded(seed: u64) -> (s: Sampler)
        ensures
            s is Seeded,
    {
        Sampler::Seeded { rng: rng_from_seed(seed) }
    }

    /// One draw: a scalar in `[0, SCALE)`. A fixed sampler yields exactly
    /// the coming value of its sequence, projected into range, and steps on.
    pub fn next_unit(&mut self) -> (r: i64)
        ensures
            0 <= r < SCALE,
            match *old(self) {
                Sampler::Fixed { values, next } => {
                    if values@.len() == 0 {
                        r == 0 && *final(self) == *old(self)
                    } else {
                        let i = (next as int) % (values@.len() as int);
                        r == clamp_unit(values@[i] as int) && *final(self)
                            == (Sampler::Fixed { values, next: (i + 1) as usize })
                    }
                },
                Sampler::Seeded { .. } => *final(self) is Seeded,
            },
    {
        let r: i64;
        match self {
            Sampler::Fixed { values, next } => {
                let len = values.len();
                if len == 0 {
                    r = 0;
                } else {
                    let i = *next % len;
                    let v = values[i];
                    r = if v < 0 {
                        0
                    } else if v >= SCALE {
                        SCALE - 1
                    } else {
                        v
                    };
                    *next = i + 1;
                }
            },
            Sampler::Seeded { rng } => {
                r = draw_unit(rng);
            },
        }
        r
    }
}

} // verus!
