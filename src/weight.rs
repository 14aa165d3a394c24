//! The total weight of a bench set: weight per repetition, times
//! repetitions per series, times series.
use vstd::prelude::*;

verus! {

/// The total weight moved in a set of `series` series of `reps`
/// repetitions of `weight` kilograms.
pub open spec fn total_weight(weight: int, reps: int, series: int) -> int {
    weight * reps * series
}

/// Whether `x` can be held in an `i32`.
pub open spec fn fits_i32(x: int) -> bool {
    i32::MIN <= x <= i32::MAX
}

/// The total weight as an `i32`, or `None` where it does not fit.
pub open spec fn checked_total(weight: int, reps: int, series: int) -> Option<i32> {
    if fits_i32(total_weight(weight, reps, series)) {
        Some(total_weight(weight, reps, series) as i32)
    } else {
        None
    }
}

/// The exact product of three `i32` values, which always fits in an `i128`.
fn wide_product(weight: i32, reps: i32, series: i32) -> (r: i128)
    ensures
        r == total_weight(weight as int, reps as int, series as int),
{
    let w = weight as i128;
    let r = reps as i128;
    let s = series as i128;
    assert(-0x4000_0000_0000_0000 <= w * r <= 0x4000_0000_0000_0000) by (nonlinear_arith)
        requires
            -0x8000_0000 <= w <= 0x8000_0000,
            -0x8000_0000 <= r <= 0x8000_0000,
    ;
    let wr = w * r;
    assert(-0x2000_0000_0000_0000_0000_0000 <= wr * s <= 0x2000_0000_0000_0000_0000_0000)
        by (nonlinear_arith)
        requires
            -0x4000_0000_0000_0000 <= wr <= 0x4000_0000_0000_0000,
            -0x8000_0000 <= s <= 0x8000_0000,
    ;
    wr * s
}

/// The total weight moved: `weight * reps * series`. Like any `i32`
/// product, it is only defined where the result fits in an `i32`.
pub fn calculate_total_weight(weight: i32, reps: i32, series: i32) -> (r: i32)
    requires
        fits_i32(total_weight(weight as int, reps as int, series as int)),
    ensures
        r == total_weight(weight as int, reps as int, series as int),
{
    wide_product(weight, reps, series) as i32
}

/// The total weight moved, or `None` where it does not fit in an `i32`.
pub fn checked_total_weight(weight: i32, reps: i32, series: i32) -> (r: Option<i32>)
    ensures
        r == checked_total(weight as int, reps as int, series as int),
{
    let t = wide_product(weight, reps, series);
    if i32::MIN as i128 <= t && t <= i32::MAX as i128 {
        Some(t as i32)
    } else {
        None
    }
}

/// Swapping the weight and the number of repetitions leaves the total
/// unchanged.
pub proof fn lemma_total_weight_swap(weight: int, reps: int, series: int)
    ensures
        total_weight(weight, reps, series) == total_weight(reps, weight, series),
{
    assert(weight * reps * series == reps * weight * series) by (nonlinear_arith);
}

/// With no series, nothing is moved, whatever the weight and repetitions.
pub proof fn lemma_total_weight_no_series(weight: int, reps: int)
    ensures
        total_weight(weight, reps, 0) == 0,
{
    assert(weight * reps * 0 == 0) by (nonlinear_arith);
}

} // verus!
