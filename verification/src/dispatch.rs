//! What one pass of the escape-time kernel is started with.

use vstd::prelude::*;
use crate::budget::{effective_cap, effective_cap_value};
use crate::grid::SampleGrid;

verus! {

/// The scalar arguments of one kernel pass and the number of work items.
#[derive(Clone, Copy, Debug, PartialEq, Eq, Structural)]
pub struct KernelArgs {
    /// The iteration budget of this pass.
    pub iteration_cap: u32,
    /// The image's width in pixels.
    pub width: u32,
    /// One work item for each pixel.
    pub work_items: usize,
}

/// The arguments of the pass that draws `grid` for a view `decades` whole
/// powers of ten away from a zoom factor of 1, under the cap that the user
/// set. The budget of the pass is raised for the depth; the user's cap is
/// not touched. `None` exactly when the raised budget does not fit in `u32`.
pub fn kernel_args<T: Copy>(iteration_cap: u32, decades: u32, grid: &SampleGrid<T>) -> (out:
    Option<KernelArgs>)
    requires
        grid.wf(),
    ensures
        out.is_some() <==> effective_cap_value(iteration_cap, decades) <= u32::MAX,
        out matches Some(args) ==> args.iteration_cap == effective_cap_value(
            iteration_cap,
            decades,
        ) && args.width == grid.width && args.work_items == grid.width * grid.height,
{
    match effective_cap(iteration_cap, decades) {
        None => None,
        Some(budget) => Some(
            KernelArgs { iteration_cap: budget, width: grid.width, work_items: grid.xs.len() },
        ),
    }
}

} // verus!
