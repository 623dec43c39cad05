//! Scaling of a field by a constant factor, used to let a quantity such as
//! the pressure fade between ticks.

use crate::field::{Field, FieldView, Sample};
use crate::fixed::{fx_mul, mul_to_channel, saturate};
use crate::pass::{grid_map, PassError};
use vstd::prelude::*;

verus! {

/// The parameter of the scaling pass, as a fixed-point number.
#[derive(Clone, Copy, Debug, PartialEq, Eq, Structural)]
pub struct ClearUniforms {
    /// Factor applied to every channel.
    pub value: i32,
}

/// A channel value scaled by `value`.
pub open spec fn scaled(channel: int, params: ClearUniforms) -> i32 {
    saturate(fx_mul(params.value as int, channel)) as i32
}

/// The scaled sample at `(x, y)`.
pub open spec fn clear_at(source: FieldView, params: ClearUniforms, x: int, y: int) -> Sample {
    let s = source.clamped(x, y);
    Sample {
        r: scaled(s.r as int, params),
        g: scaled(s.g as int, params),
        b: scaled(s.b as int, params),
        a: scaled(s.a as int, params),
    }
}

/// The samples of a field after scaling.
pub open spec fn clear_samples(source: FieldView, params: ClearUniforms) -> Seq<Sample> {
    grid_map(source, |x: int, y: int| clear_at(source, params, x, y))
}

/// Scales every channel of `source` by `params.value` and writes the result
/// into `output`.
pub fn clear(source: &Field, params: ClearUniforms, output: &mut Field) -> (res: Result<
    (),
    PassError,
>)
    ensures
        res.is_ok() <==> old(output)@.same_shape(source@),
        res.is_ok() ==> final(output)@ == old(output)@.with_samples(
            clear_samples(source@, params),
        ),
        res.is_err() ==> res == Err::<(), PassError>(PassError::ShapeMismatch) && final(output)@
            == old(output)@,
{
    let width: usize = source.width();
    let count: usize = source.len();
    if output.width() != width || output.height() != source.height() {
        return Err(PassError::ShapeMismatch);
    }
    let ghost before = output@;
    let factor: i64 = params.value as i64;
    let mut i: usize = 0;
    while i < count
        invariant
            i <= count <= 0x4000_0000,
            count == source@.samples.len(),
            width == source@.width,
            source@.wf(),
            factor == params.value,
            output@.width == before.width,
            output@.height == before.height,
            output@.layout == before.layout,
            output@.samples.len() == count,
            forall|j: int|
                0 <= j < i ==> output@.samples[j] == clear_at(
                    source@,
                    params,
                    source@.column(j),
                    source@.row(j),
                ),
        decreases count - i,
    {
        let s = source.sample_clamped((i % width) as i64, (i / width) as i64);
        let sample = Sample {
            r: mul_to_channel(factor, s.r as i64),
            g: mul_to_channel(factor, s.g as i64),
            b: mul_to_channel(factor, s.b as i64),
            a: mul_to_channel(factor, s.a as i64),
        };
        output.write_row_major(i, sample);
        i += 1;
    }
    assert(output@.samples =~= clear_samples(source@, params));
    Ok(())
}

} // verus!
