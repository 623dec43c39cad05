//! Divergence of a velocity field.

use crate::field::{lemma_uniform_flow_reads, Field, FieldView, Sample};
use crate::fixed::{clamp_to_channel, div_toward_zero, trunc_div};
use crate::pass::{grid_map, lemma_grid_map_at, lemma_index_on_grid, PassError};
use vstd::prelude::*;

verus! {

/// The divergence at `(x, y)`: half the sum of the horizontal change of the
/// horizontal velocity and the vertical change of the vertical velocity
/// between the two neighbours on either side.
pub open spec fn divergence_at(velocity: FieldView, x: int, y: int) -> Sample {
    let left = velocity.clamped(x - 1, y).r;
    let right = velocity.clamped(x + 1, y).r;
    let below = velocity.clamped(x, y - 1).g;
    let above = velocity.clamped(x, y + 1).g;
    Sample::scalar(trunc_div((right - left) + (above - below), 2))
}

/// The divergence of a whole velocity field.
pub open spec fn divergence_samples(velocity: FieldView) -> Seq<Sample> {
    grid_map(velocity, |x: int, y: int| divergence_at(velocity, x, y))
}

/// Writes the divergence of `velocity` into `output`.
pub fn divergence(velocity: &Field, output: &mut Field) -> (res: Result<(), PassError>)
    ensures
        res.is_ok() <==> old(output)@.same_shape(velocity@),
        res.is_ok() ==> final(output)@ == old(output)@.with_samples(
            divergence_samples(velocity@),
        ),
        res.is_err() ==> res == Err::<(), PassError>(PassError::ShapeMismatch) && final(output)@
            == old(output)@,
{
    let width: usize = velocity.width();
    let count: usize = velocity.len();
    if output.width() != width || output.height() != velocity.height() {
        return Err(PassError::ShapeMismatch);
    }
    let ghost before = output@;
    let mut i: usize = 0;
    while i < count
        invariant
            i <= count <= 0x4000_0000,
            count == velocity@.samples.len(),
            width == velocity@.width,
            velocity@.wf(),
            output@.width == before.width,
            output@.height == before.height,
            output@.layout == before.layout,
            output@.samples.len() == count,
            forall|j: int|
                0 <= j < i ==> output@.samples[j] == divergence_at(
                    velocity@,
                    velocity@.column(j),
                    velocity@.row(j),
                ),
        decreases count - i,
    {
        let x: i64 = (i % width) as i64;
        let y: i64 = (i / width) as i64;
        let left: i64 = velocity.sample_clamped(x - 1, y).r as i64;
        let right: i64 = velocity.sample_clamped(x + 1, y).r as i64;
        let below: i64 = velocity.sample_clamped(x, y - 1).g as i64;
        let above: i64 = velocity.sample_clamped(x, y + 1).g as i64;
        let half: i64 = div_toward_zero((right - left) + (above - below), 2);
        let sample = Sample { r: clamp_to_channel(half), g: 0, b: 0, a: 0 };
        output.write_row_major(i, sample);
        i += 1;
    }
    assert(output@.samples =~= divergence_samples(velocity@));
    Ok(())
}

/// A flow that is the same everywhere has divergence zero everywhere, at
/// the edges of the grid too.
pub proof fn lemma_uniform_flow_has_no_divergence(
    velocity: FieldView,
    flow_x: int,
    flow_y: int,
    x: int,
    y: int,
)
    requires
        velocity.wf(),
        velocity.contains(x, y),
        velocity.is_uniform_flow(flow_x, flow_y),
    ensures
        velocity.with_samples(divergence_samples(velocity)).at(x, y) == Sample::zero(),
        divergence_at(velocity, x, y) == Sample::zero(),
{
    lemma_grid_map_at(velocity, |x: int, y: int| divergence_at(velocity, x, y), x, y);
    lemma_uniform_flow_reads(velocity, flow_x, flow_y, x - 1, y);
    lemma_uniform_flow_reads(velocity, flow_x, flow_y, x + 1, y);
    lemma_uniform_flow_reads(velocity, flow_x, flow_y, x, y - 1);
    lemma_uniform_flow_reads(velocity, flow_x, flow_y, x, y + 1);
}

/// A fluid at rest has no divergence.
pub proof fn lemma_still_fluid_has_no_divergence(velocity: FieldView)
    requires
        velocity.wf(),
        velocity.is_still(),
    ensures
        velocity.with_samples(divergence_samples(velocity)).is_level(0),
{
    let after = velocity.with_samples(divergence_samples(velocity));
    assert forall|i: int| 0 <= i < after.samples.len() implies (#[trigger] after.samples[i]).r
        == 0 by {
        lemma_index_on_grid(velocity, i);
        lemma_uniform_flow_has_no_divergence(
            velocity,
            0,
            0,
            velocity.column(i),
            velocity.row(i),
        );
    }
}

} // verus!
