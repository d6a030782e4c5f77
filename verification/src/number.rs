//! Saturating arithmetic on signed 64-bit integers.
use vstd::prelude::*;

verus! {

/// An integer brought into the range of `i64`: the nearest value that fits.
pub open spec fn clamp_i64(v: int) -> int {
    if v < i64::MIN {
        i64::MIN as int
    } else if v > i64::MAX {
        i64::MAX as int
    } else {
        v
    }
}

/// Computes [`clamp_i64`].
pub fn saturate(v: i128) -> (r: i64)
    ensures
        r == clamp_i64(v as int),
{
    if v < i64::MIN as i128 {
        i64::MIN
    } else if v > i64::MAX as i128 {
        i64::MAX
    } else {
        v as i64
    }
}

/// Saturating gives the nearest value that fits: one that fits stays as it is, and no
/// fitting value is nearer.
pub proof fn saturating_gives_the_nearest_value(v: int, w: i64)
    ensures
        i64::MIN <= clamp_i64(v) <= i64::MAX,
        i64::MIN <= v <= i64::MAX ==> clamp_i64(v) == v,
        v <= w ==> v <= clamp_i64(v) <= w,
        v >= w ==> v >= clamp_i64(v) >= w,
{
}

} // verus!
