//! Curl of a velocity field.

use crate::field::{lemma_clamped_on_grid, lemma_uniform_flow_reads, Field, FieldView, Sample};
use crate::fixed::{clamp_to_channel, div_toward_zero, trunc_div};
use crate::pass::{grid_map, lemma_grid_map_at, lemma_index_on_grid, PassError};
use vstd::prelude::*;

verus! {

/// The curl at `(x, y)`: half the horizontal change of the vertical velocity
/// minus half the vertical change of the horizontal velocity, each taken
/// between the two neighbours on either side.
pub open spec fn curl_at(velocity: FieldView, x: int, y: int) -> Sample {
    let left = velocity.clamped(x - 1, y).g;
    let right = velocity.clamped(x + 1, y).g;
    let below = velocity.clamped(x, y - 1).r;
    let above = velocity.clamped(x, y + 1).r;
    Sample::scalar(trunc_div((right - left) - (above - below), 2))
}

/// The curl of a whole velocity field.
pub open spec fn curl_samples(velocity: FieldView) -> Seq<Sample> {
    grid_map(velocity, |x: int, y: int| curl_at(velocity, x, y))
}

/// Writes the curl of `velocity` into the `r` channel of `output`.
pub fn curl(velocity: &Field, output: &mut Field) -> (res: Result<(), PassError>)
    ensures
        res.is_ok() <==> old(output)@.same_shape(velocity@),
        res.is_ok() ==> final(output)@ == old(output)@.with_samples(curl_samples(velocity@)),
        res.is_err() ==> res == Err::<(), PassError>(PassError::ShapeMismatch) && final(output)@
            == old(output)@,
{
    let width: usize = velocity.width();
    let count: usize = velocity.len();
    if output.width() != width || output.height() != velocity.height() {
        return Err(PassError::ShapeMismatch);
    }
    let ghost before = output@;
    let mut i: usize = 0;
    while i < count
        invariant
            i <= count <= 0x4000_0000,
            count == velocity@.samples.len(),
            width == velocity@.width,
            velocity@.wf(),
            output@.width == before.width,
            output@.height == before.height,
            output@.layout == before.layout,
            output@.samples.len() == count,
            forall|j: int|
                0 <= j < i ==> output@.samples[j] == curl_at(
                    velocity@,
                    velocity@.column(j),
                    velocity@.row(j),
                ),
        decreases count - i,
    {
        let x: i64 = (i % width) as i64;
        let y: i64 = (i / width) as i64;
        let left: i64 = velocity.sample_clamped(x - 1, y).g as i64;
        let right: i64 = velocity.sample_clamped(x + 1, y).g as i64;
        let below: i64 = velocity.sample_clamped(x, y - 1).r as i64;
        let above: i64 = velocity.sample_clamped(x, y + 1).r as i64;
        let half: i64 = div_toward_zero((right - left) - (above - below), 2);
        let sample = Sample { r: clamp_to_channel(half), g: 0, b: 0, a: 0 };
        output.write_row_major(i, sample);
        i += 1;
    }
    assert(output@.samples =~= curl_samples(velocity@));
    Ok(())
}

/// A flow that turns like a solid body about the origin, with velocity
/// `(-rate * y, rate * x)` at `(x, y)`, has the same curl, twice `rate`, at
/// every grid point that is not on the edge of the grid. That curl is zero
/// only if `rate` is.
pub proof fn lemma_rotation_has_constant_curl(velocity: FieldView, rate: int, x: int, y: int)
    requires
        velocity.wf(),
        forall|u: int, v: int|
            velocity.contains(u, v) ==> (#[trigger] velocity.at(u, v)).r == -rate * v
                && velocity.at(u, v).g == rate * u,
        1 <= x < velocity.width - 1,
        1 <= y < velocity.height - 1,
    ensures
        velocity.with_samples(curl_samples(velocity)).at(x, y) == Sample::scalar(2 * rate),
        rate != 0 ==> Sample::scalar(2 * rate).r != 0,
{
    lemma_grid_map_at(velocity, |x: int, y: int| curl_at(velocity, x, y), x, y);
    lemma_clamped_on_grid(velocity, x - 1, y);
    lemma_clamped_on_grid(velocity, x + 1, y);
    lemma_clamped_on_grid(velocity, x, y - 1);
    lemma_clamped_on_grid(velocity, x, y + 1);
    let left = velocity.at(x - 1, y).g;
    let right = velocity.at(x + 1, y).g;
    let below = velocity.at(x, y - 1).r;
    let above = velocity.at(x, y + 1).r;
    assert(right - left == 2 * rate) by (nonlinear_arith)
        requires
            right == rate * (x + 1),
            left == rate * (x - 1),
    ;
    assert(above - below == -2 * rate) by (nonlinear_arith)
        requires
            above == -rate * (y + 1),
            below == -rate * (y - 1),
    ;
}

/// A flow that is the same everywhere has curl zero everywhere, at the edges
/// of the grid too.
pub proof fn lemma_uniform_flow_has_no_curl(
    velocity: FieldView,
    flow_x: int,
    flow_y: int,
    x: int,
    y: int,
)
    requires
        velocity.wf(),
        velocity.contains(x, y),
        velocity.is_uniform_flow(flow_x, flow_y),
    ensures
        velocity.with_samples(curl_samples(velocity)).at(x, y) == Sample::zero(),
        curl_at(velocity, x, y) == Sample::zero(),
{
    lemma_grid_map_at(velocity, |x: int, y: int| curl_at(velocity, x, y), x, y);
    lemma_uniform_flow_reads(velocity, flow_x, flow_y, x - 1, y);
    lemma_uniform_flow_reads(velocity, flow_x, flow_y, x + 1, y);
    lemma_uniform_flow_reads(velocity, flow_x, flow_y, x, y - 1);
    lemma_uniform_flow_reads(velocity, flow_x, flow_y, x, y + 1);
}

/// A fluid at rest has no curl.
pub proof fn lemma_still_fluid_has_no_curl(velocity: FieldView)
    requires
        velocity.wf(),
        velocity.is_still(),
    ensures
        velocity.with_samples(curl_samples(velocity)).is_level(0),
{
    let after = velocity.with_samples(curl_samples(velocity));
    assert forall|i: int| 0 <= i < after.samples.len() implies (#[trigger] after.samples[i]).r
        == 0 by {
        lemma_index_on_grid(velocity, i);
        lemma_uniform_flow_has_no_curl(velocity, 0, 0, velocity.column(i), velocity.row(i));
    }
}

} // verus!
