//! The number of series of a bench set, drawn at random when the caller
//! gives none.
use crate::weight::{checked_total, checked_total_weight};
use rand::Rng;
use vstd::prelude::*;

verus! {

/// The smallest number of series that is drawn.
pub const SERIES_LOW: i32 = 5;

/// One past the largest number of series that is drawn.
pub const SERIES_HIGH: i32 = 12;

/// Whether `series` is a number of series that can be drawn.
pub open spec fn is_drawn_series(series: int) -> bool {
    SERIES_LOW <= series < SERIES_HIGH
}

/// Relies on rand's `thread_rng().gen_range(low..high)`: a value in the
/// half-open range, which must not be empty.
#[verifier::external_body]
fn draw_in_range(low: i32, high: i32) -> (r: i32)
    requires
        low < high,
    ensures
        low <= r < high,
{
    rand::thread_rng().gen_range(low..high)
}

/// A number of series drawn uniformly from 5 to 11.
pub fn random_series() -> (r: i32)
    ensures
        is_drawn_series(r as int),
{
    draw_in_range(SERIES_LOW, SERIES_HIGH)
}

/// The total weight of a bench set whose number of series may be left
/// out, in which case it is drawn with `random_series`. `None` where the
/// total does not fit in an `i32`.
pub fn bench_total_weight(weight: i32, reps: i32, series: Option<i32>) -> (r: Option<i32>)
    ensures
        series is Some ==> r == checked_total(weight as int, reps as int, series->0 as int),
        series is None ==> exists|drawn: int|
            is_drawn_series(drawn) && r == #[trigger] checked_total(
                weight as int,
                reps as int,
                drawn,
            ),
{
    match series {
        Some(s) => checked_total_weight(weight, reps, s),
        None => {
            let drawn = random_series();
            let r = checked_total_weight(weight, reps, drawn);
            assert(is_drawn_series(drawn as int) && r == checked_total(
                weight as int,
                reps as int,
                drawn as int,
            ));
            r
        },
    }
}

} // verus!
