//! Wrapping of a scalar back into a closed interval.

use vstd::prelude::*;
use crate::math::number::abs_int;
use crate::math::number::in_range;
use crate::math::number::Number;

verus! {

/// Where a value lands when it is pushed back into the interval
/// `[lo, hi]`: a value below the lower limit comes back from the upper one
/// by its own magnitude, and a value above the upper limit comes back from
/// the lower one by the excess.
pub open spec fn circulated(v: int, lo: int, hi: int) -> int {
    if v < lo {
        hi - abs_int(v)
    } else if v > hi {
        lo + v - hi
    } else {
        v
    }
}

/// A scalar that can wrap around a closed interval.
pub trait CircularInterval: Number {
    /// Pushes this value back into the interval `[min_limit, max_limit]`.
    fn circulate_around(self, min_limit: Self, max_limit: Self) -> (r: Self)
        requires
            self.as_int() < min_limit.as_int() ==> abs_int(self.as_int()) <= Self::max_val()
                && in_range::<Self>(max_limit.as_int() - abs_int(self.as_int())),
            self.as_int() > max_limit.as_int() ==> in_range::<Self>(
                min_limit.as_int() + self.as_int(),
            ) && in_range::<Self>(min_limit.as_int() + self.as_int() - max_limit.as_int()),
        ensures
            r.as_int() == circulated(self.as_int(), min_limit.as_int(), max_limit.as_int()),
    {
        proof {
            Self::props();
        }
        if self < min_limit {
            max_limit - self.abs()
        } else if self > max_limit {
            min_limit + self - max_limit
        } else {
            self
        }
    }
}

impl CircularInterval for i32 {
}

impl CircularInterval for i64 {
}

impl CircularInterval for u32 {
}

impl CircularInterval for u64 {
}

} // verus!
