use vstd::prelude::*;
use crate::fixed::UNITY;

verus! {

/// The triangle envelope: over progress in `[0, UNITY)` it rises linearly
/// from 0 to `UNITY` on the first half and falls back toward 0 on the second.
pub open spec fn triangle_spec(progress: int) -> int {
    if 2 * progress < UNITY {
        2 * progress
    } else {
        2 * (UNITY - progress)
    }
}

/// How far `offset` samples into a grain of `length` samples lie, in parts of `UNITY`.
pub open spec fn progress_spec(offset: int, length: int) -> int {
    offset * UNITY / length
}

/// Envelope amplitude for a progress value, in parts of `UNITY`.
pub fn triangle(progress: u32) -> (r: u32)
    requires
        progress < UNITY,
    ensures
        r == triangle_spec(progress as int),
        r <= UNITY,
{
    if progress < UNITY / 2 {
        2 * progress
    } else {
        2 * (UNITY - progress)
    }
}

/// Progress of the sample `offset` of a grain of `length` samples, rounded down.
pub fn progress(offset: usize, length: usize) -> (r: u32)
    requires
        offset < length,
    ensures
        r == progress_spec(offset as int, length as int),
        r < UNITY,
{
    let p: u128 = (offset as u128) * (UNITY as u128) / (length as u128);
    proof {
        let o = offset as int;
        let l = length as int;
        assert(o * UNITY / l < UNITY) by (nonlinear_arith)
            requires 0 <= o < l;
        assert(o * UNITY / l >= 0) by (nonlinear_arith)
            requires 0 <= o, l > 0;
    }
    p as u32
}

/// The envelope starts silent, peaks at the middle, and is symmetric about
/// the middle everywhere inside the grain.
pub proof fn lemma_triangle_shape(p: int)
    requires
        0 < p < UNITY,
    ensures
        triangle_spec(0) == 0,
        triangle_spec((UNITY / 2) as int) == UNITY,
        triangle_spec(p) == triangle_spec(UNITY - p),
        0 <= triangle_spec(p) <= UNITY,
{
}

} // verus!
