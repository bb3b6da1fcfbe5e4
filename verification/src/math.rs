//! Integer helpers shared by the managers: basis points, decay and scores.

use vstd::prelude::*;

verus! {

/// One hundred percent, expressed in basis points.
pub const BASIS_POINTS: u64 = 10_000;

/// The smaller of two integers.
pub open spec fn spec_min(a: int, b: int) -> int {
    if a < b { a } else { b }
}

/// The larger of two integers.
pub open spec fn spec_max(a: int, b: int) -> int {
    if a > b { a } else { b }
}

/// `value` scaled by `bp` basis points, rounded down.
pub open spec fn spec_apply_basis_points(value: int, bp: int) -> int {
    (value * bp) / (BASIS_POINTS as int)
}

/// `value` after one decay step that removes `decay_bps` basis points, rounded down.
pub open spec fn spec_decay(value: int, decay_bps: int) -> int {
    (value * ((BASIS_POINTS as int) - decay_bps)) / (BASIS_POINTS as int)
}

pub fn min(a: u64, b: u64) -> (r: u64)
    ensures
        r == spec_min(a as int, b as int),
{
    if a < b {
        a
    } else {
        b
    }
}

pub fn max(a: u64, b: u64) -> (r: u64)
    ensures
        r == spec_max(a as int, b as int),
{
    if a > b {
        a
    } else {
        b
    }
}

pub fn apply_basis_points(value: u64, bp: u64) -> (r: u64)
    requires
        value * bp <= u64::MAX,
    ensures
        r == spec_apply_basis_points(value as int, bp as int),
{
    (value * bp) / BASIS_POINTS
}

pub fn calculate_weighted_score(base_weight: u64, reputation_bonus: u64, reputation_divisor: u64) -> (r: u64)
    requires
        reputation_divisor > 0,
        base_weight + reputation_bonus / reputation_divisor <= u64::MAX,
    ensures
        r == base_weight + reputation_bonus / reputation_divisor,
{
    base_weight + (reputation_bonus / reputation_divisor)
}

pub fn calculate_points(weight: u64, divisor: u64) -> (r: u64)
    requires
        divisor > 0,
    ensures
        r == weight / divisor,
{
    weight / divisor
}

pub fn decay(value: u64, decay_basis_points: u64) -> (r: u64)
    requires
        decay_basis_points <= BASIS_POINTS,
        value * (BASIS_POINTS - decay_basis_points) <= u64::MAX,
    ensures
        r == spec_decay(value as int, decay_basis_points as int),
{
    let retained = BASIS_POINTS - decay_basis_points;
    (value * retained) / BASIS_POINTS
}

pub fn is_in_range(value: u64, min_v: u64, max_v: u64) -> (r: bool)
    ensures
        r == (min_v <= value && value <= max_v),
{
    value >= min_v && value <= max_v
}

/// A decay step never raises a value and never makes it negative.
pub proof fn lemma_decay_bounds(value: int, decay_bps: int)
    requires
        0 <= value,
        0 <= decay_bps <= BASIS_POINTS as int,
    ensures
        0 <= spec_decay(value, decay_bps) <= value,
{
    assert(0 <= value * ((BASIS_POINTS as int) - decay_bps) <= value * (BASIS_POINTS as int))
        by (nonlinear_arith)
        requires
            0 <= value,
            0 <= decay_bps <= 10000,
    ;
}

/// Scaling by at most one hundred percent never raises a value.
pub proof fn lemma_basis_points_bounds(value: int, bp: int)
    requires
        0 <= value,
        0 <= bp <= BASIS_POINTS as int,
    ensures
        0 <= spec_apply_basis_points(value, bp) <= value,
{
    assert(0 <= value * bp <= value * 10000) by (nonlinear_arith)
        requires
            0 <= value,
            0 <= bp <= 10000,
    ;
}


/// The smaller and the larger of two integers are two of them, ordered.
pub proof fn law_min_max(a: int, b: int)
    ensures
        spec_min(a, b) <= a && spec_min(a, b) <= b,
        spec_min(a, b) == a || spec_min(a, b) == b,
        spec_max(a, b) >= a && spec_max(a, b) >= b,
        spec_max(a, b) == a || spec_max(a, b) == b,
{
}

/// Scaling by basis points multiplies by `bp` and divides by ten thousand,
/// rounding down; one decay step keeps `10000 - decay_bps` basis points.
pub proof fn law_basis_point_formulas(value: int, bp: int, decay_bps: int)
    ensures
        spec_apply_basis_points(value, bp) == (value * bp) / 10000,
        spec_decay(value, decay_bps) == (value * (10000 - decay_bps)) / 10000,
{
}

} // verus!
