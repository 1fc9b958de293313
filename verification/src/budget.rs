//! The iteration budget of the escape-time test.

use vstd::prelude::*;

verus! {

/// Iterations that each decade of zoom depth adds to the budget.
pub const ITERATIONS_PER_DECADE: u32 = 8;

/// The smallest iteration cap that means anything.
pub const MIN_ITERATION_CAP: u32 = 1;

/// `cap + delta`, kept inside `1 ..= u32::MAX`.
pub open spec fn adjusted_cap(cap: u32, delta: i32) -> int {
    let sum = cap + delta;
    if sum < 1 {
        1
    } else if sum > u32::MAX {
        u32::MAX as int
    } else {
        sum
    }
}

/// The budget handed to the kernel: the cap plus eight iterations for each
/// whole decade between the zoom factor and 1.
pub open spec fn effective_cap_value(cap: u32, decades: u32) -> int {
    cap + decades * 8
}

/// Moves the iteration cap by `delta`, stopping at 1 below and at
/// `u32::MAX` above.
pub fn adjust_iteration_cap(cap: u32, delta: i32) -> (out: u32)
    ensures
        out == adjusted_cap(cap, delta),
        out >= 1,
        1 <= cap + delta <= u32::MAX ==> out == cap + delta,
{
    let sum: i64 = cap as i64 + delta as i64;
    if sum < 1 {
        MIN_ITERATION_CAP
    } else if sum > u32::MAX as i64 {
        u32::MAX
    } else {
        sum as u32
    }
}

/// The effective cap for a view whose zoom factor lies `decades` whole powers
/// of ten away from 1. `None` exactly when the sum does not fit in `u32`.
pub fn effective_cap(cap: u32, decades: u32) -> (out: Option<u32>)
    ensures
        effective_cap_value(cap, decades) <= u32::MAX ==> out == Some(
            effective_cap_value(cap, decades) as u32,
        ),
        effective_cap_value(cap, decades) > u32::MAX ==> out.is_none(),
        decades == 0 ==> out == Some(cap),
{
    if decades > (u32::MAX - cap) / ITERATIONS_PER_DECADE {
        None
    } else {
        Some(cap + decades * ITERATIONS_PER_DECADE)
    }
}

} // verus!
