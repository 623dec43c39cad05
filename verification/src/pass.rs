//! What every pass of the solver has in common.
//!
//! A pass reads one or more fields and overwrites every sample of an output
//! field over the same grid. The new sample at a grid point depends only on
//! the inputs, never on the output's earlier content, so the samples of one
//! pass may be computed in any order.

use crate::field::{lemma_index_split, lemma_row_major, FieldView, Sample};
use vstd::prelude::*;

verus! {

/// Why a pass did not run.
#[derive(Clone, Copy, Debug, PartialEq, Eq, Structural)]
pub enum PassError {
    /// The fields handed to the pass do not all cover the same grid.
    ShapeMismatch,
    /// The lower end of a clamp range is not below its upper end.
    EmptyRange,
}

/// The samples of a field over the grid of `shape` whose sample at `(x, y)`
/// is `kernel(x, y)`.
pub open spec fn grid_map(shape: FieldView, kernel: spec_fn(int, int) -> Sample) -> Seq<Sample> {
    Seq::new(shape.samples.len(), |i: int| kernel(shape.column(i), shape.row(i)))
}

/// The field made by [`grid_map`] holds `kernel(x, y)` at every grid point
/// `(x, y)`.
pub proof fn lemma_grid_map_at(
    shape: FieldView,
    kernel: spec_fn(int, int) -> Sample,
    x: int,
    y: int,
)
    requires
        shape.wf(),
        shape.contains(x, y),
    ensures
        shape.with_samples(grid_map(shape, kernel)).wf(),
        shape.with_samples(grid_map(shape, kernel)).at(x, y) == kernel(x, y),
{
    lemma_row_major(x, y, shape.width as int, shape.height as int);
}

/// Every index of a well-formed field names a grid point.
pub proof fn lemma_index_on_grid(shape: FieldView, index: int)
    requires
        shape.wf(),
        0 <= index < shape.samples.len(),
    ensures
        shape.contains(shape.column(index), shape.row(index)),
        shape.row(index) * shape.width + shape.column(index) == index,
{
    lemma_index_split(index, shape.width as int, shape.height as int);
}

} // verus!
