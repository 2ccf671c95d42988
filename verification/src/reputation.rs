//! Bounded reputation scoring: signed deltas applied with saturation,
//! the result always clamped to [0, 1000].

use vstd::prelude::*;

verus! {

/// Highest reputation score a partner can hold.
pub const MAX_REPUTATION: u32 = 1000;

/// Score every partner starts with at registration.
pub const INITIAL_REPUTATION: u32 = 100;

/// Mathematical meaning of applying a signed delta to a score:
/// the sum, clamped to [0, 1000].
pub open spec fn clamped_score(score: int, delta: int) -> int {
    let sum = score + delta;
    if sum < 0 {
        0
    } else if sum > MAX_REPUTATION {
        MAX_REPUTATION as int
    } else {
        sum
    }
}

/// Law: the clamped score lies within [0, 1000] for every starting score
/// and every delta, however extreme.
pub proof fn lemma_reputation_bounded(score: int, delta: int)
    ensures
        0 <= clamped_score(score, delta) <= MAX_REPUTATION,
{
}

/// Applies a signed delta to a bounded score with explicit saturation:
/// never wraps, never leaves [0, 1000].
pub fn apply_delta(score: u32, delta: i64) -> (r: u32)
    requires
        score <= MAX_REPUTATION,
    ensures
        r == clamped_score(score as int, delta as int),
        r <= MAX_REPUTATION,
{
    if delta >= 0 {
        if delta >= MAX_REPUTATION as i64 {
            MAX_REPUTATION
        } else {
            let raised: u32 = score + delta as u32;
            if raised > MAX_REPUTATION {
                MAX_REPUTATION
            } else {
                raised
            }
        }
    } else {
        if delta <= -(MAX_REPUTATION as i64) {
            0
        } else {
            let decrease: u32 = (-delta) as u32;
            if decrease >= score {
                0
            } else {
                score - decrease
            }
        }
    }
}

} // verus!
