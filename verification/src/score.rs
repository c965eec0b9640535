//! Fixed-point scores in thousandths: the value `1000` stands for a full
//! score of one, `0` for zero. Every belief score, personality trait and
//! probability estimate in this crate is such a value.
use vstd::prelude::*;

verus! {

/// One whole unit, in thousandths.
pub const SCORE_SCALE: u32 = 1000;

/// A score is valid when it lies in the closed interval [0, 1000].
pub open spec fn valid_score(s: u32) -> bool {
    s <= SCORE_SCALE
}

/// Clamp a mathematical integer into the score interval [0, 1000].
pub open spec fn clamped(v: int) -> int {
    if v < 0 {
        0
    } else if v > 1000 {
        1000
    } else {
        v
    }
}

/// Add a (possibly negative) delta to a score and clamp the result.
pub fn clamp_add(s: u32, delta: i64) -> (r: u32)
    requires
        valid_score(s),
        -1_000_000_000 <= delta <= 1_000_000_000,
    ensures
        r == clamped(s + delta),
        valid_score(r),
{
    let t: i64 = s as i64 + delta;
    if t < 0 {
        0
    } else if t > 1000 {
        1000
    } else {
        t as u32
    }
}

} // verus!
