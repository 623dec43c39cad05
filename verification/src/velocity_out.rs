//! Remapping of velocities into the display range from zero to one.
//!
//! The output is meant for display only and is never read by another pass.

use crate::field::{Field, FieldView, Sample};
use crate::fixed::{clamp_int, fx_mul, lemma_product_bound, trunc_div, ONE};
use crate::pass::{grid_map, PassError};
use vstd::prelude::*;

verus! {

/// The parameters of the remapping pass, as fixed-point numbers.
#[derive(Clone, Copy, Debug, PartialEq, Eq, Structural)]
pub struct VelocityOutUniforms {
    /// The velocity that maps to the low end of the range.
    pub min_value: i32,
    /// The velocity that maps to the high end of the range.
    pub max_value: i32,
    /// Factor applied to the position of the velocity within the range.
    pub scale_factor: i32,
    /// Offset added after scaling.
    pub offset: i32,
}

/// The display value of one velocity component:
/// `(v - min) / (max - min) * scale + offset`, limited to the interval from
/// zero to one.
pub open spec fn remapped(speed: int, params: VelocityOutUniforms) -> i32
    recommends
        params.min_value < params.max_value,
{
    let position = trunc_div(
        (speed - params.min_value) * ONE,
        params.max_value - params.min_value,
    );
    clamp_int(fx_mul(position, params.scale_factor as int) + params.offset, 0, ONE as int) as i32
}

/// The display sample at `(x, y)`: both velocity components remapped, `b`
/// zero and `a` one.
pub open spec fn velocity_out_at(
    velocity: FieldView,
    params: VelocityOutUniforms,
    x: int,
    y: int,
) -> Sample {
    let v = velocity.clamped(x, y);
    Sample { r: remapped(v.r as int, params), g: remapped(v.g as int, params), b: 0, a: ONE }
}

/// The display field of a velocity field.
pub open spec fn velocity_out_samples(velocity: FieldView, params: VelocityOutUniforms) -> Seq<
    Sample,
> {
    grid_map(velocity, |x: int, y: int| velocity_out_at(velocity, params, x, y))
}

/// Remaps one velocity component.
fn remap(speed: i32, params: VelocityOutUniforms) -> (out: i32)
    requires
        params.min_value < params.max_value,
    ensures
        out == remapped(speed as int, params),
        0 <= out <= ONE,
{
    let range: i128 = (params.max_value as i128) - (params.min_value as i128);
    let above_min: i128 = ((speed as i128) - (params.min_value as i128)) * 65536;
    let position: i128 = if above_min >= 0 {
        above_min / range
    } else {
        -((-above_min) / range)
    };
    proof {
        let n = if above_min >= 0 {
            above_min as int
        } else {
            -above_min as int
        };
        assert(0 <= n / (range as int) <= n) by (nonlinear_arith)
            requires
                n >= 0,
                range >= 1,
        ;
        lemma_product_bound(
            position as int,
            params.scale_factor as int,
            0x1_0000_0000_0000,
            0x8000_0000,
        );
    }
    let product: i128 = position * (params.scale_factor as i128);
    let scaled: i128 = if product >= 0 {
        product / 65536
    } else {
        -((-product) / 65536)
    };
    let shifted: i128 = scaled + (params.offset as i128);
    if shifted < 0 {
        0
    } else if shifted > 65536 {
        65536
    } else {
        shifted as i32
    }
}

/// Remaps `velocity` into the display range and writes the result into
/// `output`.
pub fn velocity_out(velocity: &Field, params: VelocityOutUniforms, output: &mut Field) -> (res:
    Result<(), PassError>)
    ensures
        res.is_ok() <==> params.min_value < params.max_value && old(output)@.same_shape(
            velocity@,
        ),
        res.is_ok() ==> final(output)@ == old(output)@.with_samples(
            velocity_out_samples(velocity@, params),
        ),
        res.is_err() ==> final(output)@ == old(output)@,
        res.is_err() && params.min_value >= params.max_value ==> res == Err::<(), PassError>(
            PassError::EmptyRange,
        ),
        res.is_err() && params.min_value < params.max_value ==> res == Err::<(), PassError>(
            PassError::ShapeMismatch,
        ),
{
    if params.min_value >= params.max_value {
        return Err(PassError::EmptyRange);
    }
    let width: usize = velocity.width();
    let count: usize = velocity.len();
    if output.width() != width || output.height() != velocity.height() {
        return Err(PassError::ShapeMismatch);
    }
    let ghost before = output@;
    let mut i: usize = 0;
    while i < count
        invariant
            i <= count <= 0x4000_0000,
            count == velocity@.samples.len(),
            width == velocity@.width,
            velocity@.wf(),
            params.min_value < params.max_value,
            output@.width == before.width,
            output@.height == before.height,
            output@.layout == before.layout,
            output@.samples.len() == count,
            forall|j: int|
                0 <= j < i ==> output@.samples[j] == velocity_out_at(
                    velocity@,
                    params,
                    velocity@.column(j),
                    velocity@.row(j),
                ),
        decreases count - i,
    {
        let x: i64 = (i % width) as i64;
        let y: i64 = (i / width) as i64;
        let v = velocity.sample_clamped(x, y);
        let sample = Sample { r: remap(v.r, params), g: remap(v.g, params), b: 0, a: 65536 };
        output.write_row_major(i, sample);
        i += 1;
    }
    assert(output@.samples =~= velocity_out_samples(velocity@, params));
    Ok(())
}

} // verus!
