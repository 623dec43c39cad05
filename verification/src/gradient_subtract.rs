//! Projection: removing the pressure gradient from the velocity, then adding
//! the forcing of the wind field and damping the result.

use crate::field::{
    lemma_level_reads, lemma_uniform_flow_reads, Field, FieldView, Sample,
};
use crate::fixed::{div_toward_zero, fx_mul, mul_fixed, mul_to_channel, saturate, trunc_div};
use crate::pass::{grid_map, lemma_grid_map_at, lemma_index_on_grid, PassError};
use vstd::prelude::*;

verus! {

/// The parameters of the projection pass, as fixed-point numbers.
#[derive(Clone, Copy, Debug, PartialEq, Eq, Structural)]
pub struct GradientSubtractUniforms {
    /// Factor applied to the wind field before it is added to the velocity.
    pub wind_strength: i32,
    /// Factor applied to the corrected and forced velocity.
    pub damping: i32,
}

/// One velocity component after projection: the component less the pressure
/// change across the point, plus the scaled wind, all damped.
pub open spec fn corrected(
    speed: int,
    pressure_before: int,
    pressure_after: int,
    wind: int,
    params: GradientSubtractUniforms,
) -> i32 {
    let gradient = trunc_div(pressure_after - pressure_before, 2);
    let forced = speed - gradient + fx_mul(params.wind_strength as int, wind);
    saturate(fx_mul(params.damping as int, forced)) as i32
}

/// The projected velocity at `(x, y)`. The channels `b` and `a` of the
/// velocity sample pass through.
pub open spec fn gradient_subtract_at(
    pressure: FieldView,
    velocity: FieldView,
    wind: FieldView,
    params: GradientSubtractUniforms,
    x: int,
    y: int,
) -> Sample {
    let v = velocity.clamped(x, y);
    let w = wind.clamped(x, y);
    Sample {
        r: corrected(
            v.r as int,
            pressure.clamped(x - 1, y).r as int,
            pressure.clamped(x + 1, y).r as int,
            w.r as int,
            params,
        ),
        g: corrected(
            v.g as int,
            pressure.clamped(x, y - 1).r as int,
            pressure.clamped(x, y + 1).r as int,
            w.g as int,
            params,
        ),
        b: v.b,
        a: v.a,
    }
}

/// The projected velocity field.
pub open spec fn gradient_subtract_samples(
    pressure: FieldView,
    velocity: FieldView,
    wind: FieldView,
    params: GradientSubtractUniforms,
) -> Seq<Sample> {
    grid_map(
        velocity,
        |x: int, y: int| gradient_subtract_at(pressure, velocity, wind, params, x, y),
    )
}

/// Corrects one velocity component.
fn correct(
    speed: i32,
    before: i32,
    after: i32,
    wind: i32,
    params: GradientSubtractUniforms,
) -> (out: i32)
    ensures
        out == corrected(speed as int, before as int, after as int, wind as int, params),
{
    let gradient: i64 = div_toward_zero((after as i64) - (before as i64), 2);
    let forced: i64 = (speed as i64) - gradient + mul_fixed(params.wind_strength, wind);
    mul_to_channel(params.damping as i64, forced)
}

/// Subtracts the gradient of `pressure` from `velocity`, adds `wind` scaled
/// by `params.wind_strength`, damps the sum by `params.damping` and writes
/// the result into `output`.
pub fn gradient_subtract(
    pressure: &Field,
    velocity: &Field,
    wind: &Field,
    params: GradientSubtractUniforms,
    output: &mut Field,
) -> (res: Result<(), PassError>)
    ensures
        res.is_ok() <==> ({
            &&& pressure@.same_shape(velocity@)
            &&& wind@.same_shape(velocity@)
            &&& old(output)@.same_shape(velocity@)
        }),
        res.is_ok() ==> final(output)@ == old(output)@.with_samples(
            gradient_subtract_samples(pressure@, velocity@, wind@, params),
        ),
        res.is_err() ==> res == Err::<(), PassError>(PassError::ShapeMismatch) && final(output)@
            == old(output)@,
{
    let width: usize = velocity.width();
    let height: usize = velocity.height();
    let count: usize = velocity.len();
    if pressure.width() != width || pressure.height() != height || wind.width() != width
        || wind.height() != height || output.width() != width || output.height() != height {
        return Err(PassError::ShapeMismatch);
    }
    let ghost before = output@;
    let mut i: usize = 0;
    while i < count
        invariant
            i <= count <= 0x4000_0000,
            count == velocity@.samples.len(),
            width == velocity@.width,
            velocity@.wf(),
            output@.width == before.width,
            output@.height == before.height,
            output@.layout == before.layout,
            output@.samples.len() == count,
            forall|j: int|
                0 <= j < i ==> output@.samples[j] == gradient_subtract_at(
                    pressure@,
                    velocity@,
                    wind@,
                    params,
                    velocity@.column(j),
                    velocity@.row(j),
                ),
        decreases count - i,
    {
        let x: i64 = (i % width) as i64;
        let y: i64 = (i / width) as i64;
        let v = velocity.sample_clamped(x, y);
        let w = wind.sample_clamped(x, y);
        let left: i32 = pressure.sample_clamped(x - 1, y).r;
        let right: i32 = pressure.sample_clamped(x + 1, y).r;
        let below: i32 = pressure.sample_clamped(x, y - 1).r;
        let above: i32 = pressure.sample_clamped(x, y + 1).r;
        let sample = Sample {
            r: correct(v.r, left, right, w.r, params),
            g: correct(v.g, below, above, w.g, params),
            b: v.b,
            a: v.a,
        };
        output.write_row_major(i, sample);
        i += 1;
    }
    assert(output@.samples =~= gradient_subtract_samples(pressure@, velocity@, wind@, params));
    Ok(())
}

/// Under a pressure that is the same everywhere and without wind, a fluid
/// at rest stays at rest.
pub proof fn lemma_projection_at_rest(
    pressure: FieldView,
    velocity: FieldView,
    wind: FieldView,
    params: GradientSubtractUniforms,
    level: int,
    x: int,
    y: int,
)
    requires
        pressure.wf(),
        velocity.wf(),
        wind.wf(),
        pressure.same_shape(velocity),
        wind.same_shape(velocity),
        pressure.is_level(level),
        velocity.is_still(),
        wind.is_still(),
        velocity.contains(x, y),
    ensures
        velocity.with_samples(gradient_subtract_samples(pressure, velocity, wind, params)).at(
            x,
            y,
        ).r == 0,
        velocity.with_samples(gradient_subtract_samples(pressure, velocity, wind, params)).at(
            x,
            y,
        ).g == 0,
{
    lemma_grid_map_at(
        velocity,
        |x: int, y: int| gradient_subtract_at(pressure, velocity, wind, params, x, y),
        x,
        y,
    );
    lemma_level_reads(pressure, level, x - 1, y);
    lemma_level_reads(pressure, level, x + 1, y);
    lemma_level_reads(pressure, level, x, y - 1);
    lemma_level_reads(pressure, level, x, y + 1);
    lemma_uniform_flow_reads(velocity, 0, 0, x, y);
    lemma_uniform_flow_reads(wind, 0, 0, x, y);
    assert(params.wind_strength * 0 == 0);
    assert(params.damping * 0 == 0);
}

/// Under a pressure that is the same everywhere and without wind, a fluid
/// at rest stays at rest everywhere.
pub proof fn lemma_still_fluid_is_not_pushed(
    pressure: FieldView,
    velocity: FieldView,
    wind: FieldView,
    params: GradientSubtractUniforms,
    level: int,
)
    requires
        pressure.wf(),
        velocity.wf(),
        wind.wf(),
        pressure.same_shape(velocity),
        wind.same_shape(velocity),
        pressure.is_level(level),
        velocity.is_still(),
        wind.is_still(),
    ensures
        velocity.with_samples(
            gradient_subtract_samples(pressure, velocity, wind, params),
        ).is_still(),
{
    let after = velocity.with_samples(gradient_subtract_samples(pressure, velocity, wind, params));
    assert forall|i: int| 0 <= i < after.samples.len() implies (#[trigger] after.samples[i]).r == 0
        && after.samples[i].g == 0 by {
        lemma_index_on_grid(velocity, i);
        let x = velocity.column(i);
        let y = velocity.row(i);
        lemma_projection_at_rest(pressure, velocity, wind, params, level, x, y);
        assert(after.at(x, y) == after.samples[i]);
    }
}

} // verus!
