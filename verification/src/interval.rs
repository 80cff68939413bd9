//! Closed scalar ranges used to bound valid ray parameters.

use vstd::prelude::*;

verus! {

use crate::fixed::fits;

/// A scalar range from `min` to `max`. An ordinary interval has
/// `min <= max`; the empty interval has its bounds crossed at the ends of
/// the scalar range, so it contains nothing.
#[derive(Clone, Copy, Debug, PartialEq, Eq, Structural)]
pub struct Interval {
    pub min: i64,
    pub max: i64,
}

/// `x` lies in `i`, bounds included.
pub open spec fn contains_spec(i: Interval, x: int) -> bool {
    i.min <= x <= i.max
}

/// `x` lies in `i`, bounds excluded.
pub open spec fn surrounds_spec(i: Interval, x: int) -> bool {
    i.min < x < i.max
}

/// `x` projected into `[min, max]`.
pub open spec fn clamp_spec(i: Interval, x: int) -> int {
    if x < i.min {
        i.min as int
    } else if x > i.max {
        i.max as int
    } else {
        x
    }
}

/// The interval that contains nothing: bounds crossed at the ends of the
/// scalar range.
pub open spec fn empty_spec() -> Interval {
    Interval { min: i64::MAX, max: i64::MIN }
}

/// The interval of every scalar.
pub open spec fn universe_spec() -> Interval {
    Interval { min: i64::MIN, max: i64::MAX }
}

impl Interval {
    /// The interval from `min` to `max`.
    pub fn new(min: i64, max: i64) -> (i: Interval)
        ensures
            i == (Interval { min, max }),
    {
        Interval { min, max }
    }

    /// The interval that contains nothing.
    pub fn empty() -> (i: Interval)
        ensures
            i == empty_spec(),
    {
        Interval { min: i64::MAX, max: i64::MIN }
    }

    /// The interval of every scalar.
    pub fn universe() -> (i: Interval)
        ensures
            i == universe_spec(),
    {
        Interval { min: i64::MIN, max: i64::MAX }
    }

    /// The width of the interval.
    pub fn size(&self) -> (s: i64)
        requires
            fits(self.max - self.min),
        ensures
            s == self.max - self.min,
    {
        self.max - self.min
    }

    /// Whether `x` lies in the interval, bounds included.
    pub fn contains(&self, x: i64) -> (b: bool)
        ensures
            b == contains_spec(*self, x as int),
    {
        x <= self.max && x >= self.min
    }

    /// Whether `x` lies in the interval, bounds excluded.
    pub fn surrounds(&self, x: i64) -> (b: bool)
        ensures
            b == surrounds_spec(*self, x as int),
    {
        x < self.max && x > self.min
    }

    /// `x` projected into `[min, max]`.
    pub fn clamp(&self, x: i64) -> (r: i64)
        ensures
            r == clamp_spec(*self, x as int),
    {
        if x < self.min {
            return self.min;
        }
        if x > self.max {
            return self.max;
        }
        x
    }
}

impl Default for Interval {
    /// The default interval is the empty one.
    fn default() -> (i: Self)
        ensures
            i == empty_spec(),
    {
        Interval::empty()
    }
}

/// Clamping is idempotent: on any ordinary interval, clamping an already
/// clamped value returns it unchanged.
pub proof fn lemma_clamp_idempotent(i: Interval, x: int)
    requires
        i.min <= i.max,
    ensures
        clamp_spec(i, clamp_spec(i, x)) == clamp_spec(i, x),
{
}

/// The empty interval contains no scalar at all.
pub proof fn lemma_empty_contains_nothing(x: int)
    requires
        i64::MIN <= x <= i64::MAX,
    ensures
        !contains_spec(empty_spec(), x),
{
}

} // verus!
