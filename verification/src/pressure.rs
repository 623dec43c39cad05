//! Pressure relaxation: repeated Jacobi steps towards the pressure whose
//! Laplacian is the divergence.

use crate::buffer::{BufferView, DoubleBuffer};
use crate::field::{lemma_level_reads, Field, FieldView, Sample};
use crate::fixed::{clamp_to_channel, div_toward_zero, trunc_div};
use crate::pass::{grid_map, lemma_index_on_grid, PassError};
use vstd::prelude::*;

verus! {

/// The relaxed pressure at `(x, y)`: a quarter of the sum of the four
/// neighbouring pressures less the divergence at `(x, y)`.
pub open spec fn jacobi_at(pressure: FieldView, divergence: FieldView, x: int, y: int) -> Sample {
    let left = pressure.clamped(x - 1, y).r;
    let right = pressure.clamped(x + 1, y).r;
    let below = pressure.clamped(x, y - 1).r;
    let above = pressure.clamped(x, y + 1).r;
    let source = divergence.clamped(x, y).r;
    Sample::scalar(trunc_div(left + right + below + above - source, 4))
}

/// The pressure samples after one Jacobi step.
pub open spec fn jacobi_samples(pressure: FieldView, divergence: FieldView) -> Seq<Sample> {
    grid_map(pressure, |x: int, y: int| jacobi_at(pressure, divergence, x, y))
}

/// The double buffer after `iterations` Jacobi steps, each followed by a
/// swap.
pub open spec fn relaxed(buffer: BufferView, divergence: FieldView, iterations: nat) -> BufferView
    decreases iterations,
{
    if iterations == 0 {
        buffer
    } else {
        let earlier = relaxed(buffer, divergence, (iterations - 1) as nat);
        BufferView {
            front: earlier.back.with_samples(jacobi_samples(earlier.front, divergence)),
            back: earlier.front,
        }
    }
}

/// Writes one Jacobi step of `pressure` against `divergence` into `output`.
pub fn jacobi(pressure: &Field, divergence: &Field, output: &mut Field) -> (res: Result<
    (),
    PassError,
>)
    ensures
        res.is_ok() <==> divergence@.same_shape(pressure@) && old(output)@.same_shape(pressure@),
        res.is_ok() ==> final(output)@ == old(output)@.with_samples(
            jacobi_samples(pressure@, divergence@),
        ),
        res.is_err() ==> res == Err::<(), PassError>(PassError::ShapeMismatch) && final(output)@
            == old(output)@,
{
    let width: usize = pressure.width();
    let height: usize = pressure.height();
    let count: usize = pressure.len();
    if divergence.width() != width || divergence.height() != height || output.width() != width
        || output.height() != height {
        return Err(PassError::ShapeMismatch);
    }
    let ghost before = output@;
    let mut i: usize = 0;
    while i < count
        invariant
            i <= count <= 0x4000_0000,
            count == pressure@.samples.len(),
            width == pressure@.width,
            pressure@.wf(),
            output@.width == before.width,
            output@.height == before.height,
            output@.layout == before.layout,
            output@.samples.len() == count,
            forall|j: int|
                0 <= j < i ==> output@.samples[j] == jacobi_at(
                    pressure@,
                    divergence@,
                    pressure@.column(j),
                    pressure@.row(j),
                ),
        decreases count - i,
    {
        let x: i64 = (i % width) as i64;
        let y: i64 = (i / width) as i64;
        let left: i64 = pressure.sample_clamped(x - 1, y).r as i64;
        let right: i64 = pressure.sample_clamped(x + 1, y).r as i64;
        let below: i64 = pressure.sample_clamped(x, y - 1).r as i64;
        let above: i64 = pressure.sample_clamped(x, y + 1).r as i64;
        let source: i64 = divergence.sample_clamped(x, y).r as i64;
        let quarter: i64 = div_toward_zero(left + right + below + above - source, 4);
        let sample = Sample { r: clamp_to_channel(quarter), g: 0, b: 0, a: 0 };
        output.write_row_major(i, sample);
        i += 1;
    }
    assert(output@.samples =~= jacobi_samples(pressure@, divergence@));
    Ok(())
}

/// Runs `iterations` Jacobi steps on the pressure buffer. Every step reads
/// the front field, writes the back field and swaps, so the result of the
/// last step ends up in front.
pub fn solve_pressure(pressure: &mut DoubleBuffer, divergence: &Field, iterations: u32) -> (res:
    Result<(), PassError>)
    ensures
        res.is_ok() <==> iterations == 0 || (divergence@.same_shape(old(pressure)@.front)
            && old(pressure)@.back.same_shape(old(pressure)@.front)),
        res.is_ok() ==> final(pressure)@ == relaxed(
            old(pressure)@,
            divergence@,
            iterations as nat,
        ),
        res.is_err() ==> res == Err::<(), PassError>(PassError::ShapeMismatch) && final(pressure)@
            == old(pressure)@,
        old(pressure)@.wf() ==> final(pressure)@.wf() && final(pressure)@.front.same_shape(
            old(pressure)@.front,
        ),
{
    let mut done: u32 = 0;
    while done < iterations
        invariant
            done <= iterations,
            pressure@ == relaxed(old(pressure)@, divergence@, done as nat),
            old(pressure)@.wf() ==> pressure@.wf() && pressure@.front.same_shape(
                old(pressure)@.front,
            ),
            done > 0 ==> divergence@.same_shape(old(pressure)@.front)
                && old(pressure)@.back.same_shape(old(pressure)@.front),
            done > 0 ==> divergence@.same_shape(pressure@.front) && pressure@.back.same_shape(
                pressure@.front,
            ),
        decreases iterations - done,
    {
        let (front, back) = pressure.parts();
        let step = jacobi(front, divergence, back);
        if step.is_err() {
            return Err(PassError::ShapeMismatch);
        }
        pressure.swap();
        done += 1;
    }
    Ok(())
}

/// Where the divergence is zero, a pressure that is the same everywhere
/// stays as it is, whatever the number of relaxation steps. In particular a
/// pressure of zero stays zero.
pub proof fn lemma_level_pressure_is_steady(
    buffer: BufferView,
    divergence: FieldView,
    level: int,
    iterations: nat,
)
    requires
        buffer.wf(),
        divergence.wf(),
        divergence.same_shape(buffer.front),
        divergence.is_level(0),
        buffer.front.is_level(level),
    ensures
        relaxed(buffer, divergence, iterations).wf(),
        relaxed(buffer, divergence, iterations).front.same_shape(buffer.front),
        relaxed(buffer, divergence, iterations).front.is_level(level),
    decreases iterations,
{
    if iterations > 0 {
        lemma_level_pressure_is_steady(buffer, divergence, level, (iterations - 1) as nat);
        let earlier = relaxed(buffer, divergence, (iterations - 1) as nat);
        let later = relaxed(buffer, divergence, iterations);
        assert forall|i: int| 0 <= i < later.front.samples.len() implies (
        #[trigger] later.front.samples[i]).r == level by {
            let x = earlier.front.column(i);
            let y = earlier.front.row(i);
            lemma_index_on_grid(earlier.front, i);
            lemma_level_reads(earlier.front, level, x - 1, y);
            lemma_level_reads(earlier.front, level, x + 1, y);
            lemma_level_reads(earlier.front, level, x, y - 1);
            lemma_level_reads(earlier.front, level, x, y + 1);
            lemma_level_reads(divergence, 0, x, y);
            assert(later.front.samples[i] == jacobi_at(earlier.front, divergence, x, y));
        }
    }
}

} // verus!
