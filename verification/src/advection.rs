//! Semi-Lagrangian advection: every output sample is fetched from where the
//! flow came from.
//!
//! Velocities are measured in grid cells per second, so a sample at `(x, y)`
//! that moves with velocity `(vx, vy)` for the time `dt` came from
//! `(x - dt * vx, y - dt * vy)`. That position is kept on the grid, the
//! transported field is interpolated there between its four nearest samples,
//! and the result is weakened by the factor `1 - dissipation * dt`.

use crate::field::{lemma_clamped_on_grid, lemma_row_major, Field, FieldView, Sample};
use crate::fixed::{
    clamp_int, fx_lerp, fx_mul, lemma_product_bound, lerp, mul_fixed, mul_to_channel, saturate,
    ONE,
};
use crate::pass::{grid_map, lemma_grid_map_at, lemma_index_on_grid, PassError};
use vstd::prelude::*;

verus! {

/// The parameters of one advection pass, as fixed-point numbers.
#[derive(Clone, Copy, Debug, PartialEq, Eq, Structural)]
pub struct AdvectionUniforms {
    /// Length of the time step in seconds.
    pub dt: i32,
    /// Share of the transported quantity that is lost per second.
    pub dissipation: i32,
}

/// Where the content of grid coordinate `coordinate` came from, along one
/// axis of `extent` samples, as a fixed-point position kept on the grid.
pub open spec fn backtrace(coordinate: int, speed: int, dt: int, extent: int) -> int {
    clamp_int(coordinate * ONE - fx_mul(dt, speed), 0, (extent - 1) * ONE)
}

/// The factor `1 - dissipation * dt` by which a transported sample is
/// weakened.
pub open spec fn decay_factor(params: AdvectionUniforms) -> int {
    ONE - fx_mul(params.dissipation as int, params.dt as int)
}

/// Interpolates between four corner values: first along `x` with weight
/// `tx`, then along `y` with weight `ty`.
pub open spec fn bilinear(c00: int, c10: int, c01: int, c11: int, tx: int, ty: int) -> int {
    fx_lerp(fx_lerp(c00, c10, tx), fx_lerp(c01, c11, tx), ty)
}

/// A transported channel value after dissipation.
pub open spec fn decayed(value: int, params: AdvectionUniforms) -> i32 {
    saturate(fx_mul(value, decay_factor(params))) as i32
}

/// One channel of an advected sample: interpolated between the four
/// corners, then weakened.
pub open spec fn carried(
    c00: i32,
    c10: i32,
    c01: i32,
    c11: i32,
    tx: int,
    ty: int,
    params: AdvectionUniforms,
) -> i32 {
    decayed(bilinear(c00 as int, c10 as int, c01 as int, c11 as int, tx, ty), params)
}

/// The advected sample at grid point `(x, y)`.
pub open spec fn advect_at(
    velocity: FieldView,
    source: FieldView,
    params: AdvectionUniforms,
    x: int,
    y: int,
) -> Sample {
    let v = velocity.clamped(x, y);
    let px = backtrace(x, v.r as int, params.dt as int, source.width as int);
    let py = backtrace(y, v.g as int, params.dt as int, source.height as int);
    let ix = px / (ONE as int);
    let iy = py / (ONE as int);
    let tx = px % (ONE as int);
    let ty = py % (ONE as int);
    let s00 = source.clamped(ix, iy);
    let s10 = source.clamped(ix + 1, iy);
    let s01 = source.clamped(ix, iy + 1);
    let s11 = source.clamped(ix + 1, iy + 1);
    Sample {
        r: carried(s00.r, s10.r, s01.r, s11.r, tx, ty, params),
        g: carried(s00.g, s10.g, s01.g, s11.g, tx, ty, params),
        b: carried(s00.b, s10.b, s01.b, s11.b, tx, ty, params),
        a: carried(s00.a, s10.a, s01.a, s11.a, tx, ty, params),
    }
}

/// The samples of `source` after being carried along `velocity`.
pub open spec fn advect_samples(
    velocity: FieldView,
    source: FieldView,
    params: AdvectionUniforms,
) -> Seq<Sample> {
    grid_map(source, |x: int, y: int| advect_at(velocity, source, params, x, y))
}

/// One axis of the back-traced position, split into the sample before it
/// and the fraction of the way to the next sample.
fn trace_axis(coordinate: i64, speed: i32, dt: i32, extent: usize) -> (cell_and_weight: (i64, i32))
    requires
        0 <= coordinate < extent <= 32768,
    ensures
        cell_and_weight.0 == backtrace(coordinate as int, speed as int, dt as int, extent as int)
            / (ONE as int),
        cell_and_weight.1 == backtrace(coordinate as int, speed as int, dt as int, extent as int)
            % (ONE as int),
        0 <= cell_and_weight.1 < ONE,
{
    let travelled: i64 = mul_fixed(dt, speed);
    proof {
        lemma_product_bound(dt as int, speed as int, 0x8000_0000, 0x8000_0000);
    }
    let raw: i64 = coordinate * 65536 - travelled;
    let last: i64 = (extent as i64 - 1) * 65536;
    let position: i64 = if raw < 0 {
        0
    } else if raw > last {
        last
    } else {
        raw
    };
    (position / 65536, (position % 65536) as i32)
}

/// Interpolates one channel between four corners and applies dissipation.
fn blend(c00: i32, c10: i32, c01: i32, c11: i32, tx: i32, ty: i32, factor: i64) -> (out: i32)
    requires
        0 <= tx <= ONE,
        0 <= ty <= ONE,
    ensures
        out == saturate(
            fx_mul(
                bilinear(c00 as int, c10 as int, c01 as int, c11 as int, tx as int, ty as int),
                factor as int,
            ),
        ),
{
    let top: i32 = lerp(c00, c10, tx);
    let bottom: i32 = lerp(c01, c11, tx);
    let value: i32 = lerp(top, bottom, ty);
    mul_to_channel(value as i64, factor)
}

/// Computes the advected sample at grid point `(x, y)`.
fn advect_sample(
    velocity: &Field,
    source: &Field,
    params: AdvectionUniforms,
    x: i64,
    y: i64,
) -> (out: Sample)
    requires
        source@.contains(x as int, y as int),
    ensures
        out == advect_at(velocity@, source@, params, x as int, y as int),
{
    let width: usize = source.width();
    let height: usize = source.height();
    let v = velocity.sample_clamped(x, y);
    let (ix, tx) = trace_axis(x, v.r, params.dt, width);
    let (iy, ty) = trace_axis(y, v.g, params.dt, height);
    let s00 = source.sample_clamped(ix, iy);
    let s10 = source.sample_clamped(ix + 1, iy);
    let s01 = source.sample_clamped(ix, iy + 1);
    let s11 = source.sample_clamped(ix + 1, iy + 1);
    let factor: i64 = 65536 - mul_fixed(params.dissipation, params.dt);
    Sample {
        r: blend(s00.r, s10.r, s01.r, s11.r, tx, ty, factor),
        g: blend(s00.g, s10.g, s01.g, s11.g, tx, ty, factor),
        b: blend(s00.b, s10.b, s01.b, s11.b, tx, ty, factor),
        a: blend(s00.a, s10.a, s01.a, s11.a, tx, ty, factor),
    }
}

/// Carries `source` along `velocity` for the time `params.dt` and writes the
/// result into `output`.
pub fn advect(
    velocity: &Field,
    source: &Field,
    params: AdvectionUniforms,
    output: &mut Field,
) -> (res: Result<(), PassError>)
    ensures
        res.is_ok() <==> source@.same_shape(velocity@) && old(output)@.same_shape(source@),
        res.is_ok() ==> final(output)@ == old(output)@.with_samples(
            advect_samples(velocity@, source@, params),
        ),
        res.is_err() ==> res == Err::<(), PassError>(PassError::ShapeMismatch) && final(output)@
            == old(output)@,
{
    let width: usize = source.width();
    let height: usize = source.height();
    let count: usize = source.len();
    if velocity.width() != width || velocity.height() != height || output.width() != width
        || output.height() != height {
        return Err(PassError::ShapeMismatch);
    }
    let ghost before = output@;
    let mut i: usize = 0;
    while i < count
        invariant
            i <= count <= 0x4000_0000,
            count == source@.samples.len(),
            width == source@.width,
            source@.wf(),
            output@.width == before.width,
            output@.height == before.height,
            output@.layout == before.layout,
            output@.samples.len() == count,
            forall|j: int|
                0 <= j < i ==> output@.samples[j] == advect_at(
                    velocity@,
                    source@,
                    params,
                    source@.column(j),
                    source@.row(j),
                ),
        decreases count - i,
    {
        proof {
            lemma_index_on_grid(source@, i as int);
        }
        let x: i64 = (i % width) as i64;
        let y: i64 = (i / width) as i64;
        let sample = advect_sample(velocity, source, params, x, y);
        output.write_row_major(i, sample);
        i += 1;
    }
    assert(output@.samples =~= advect_samples(velocity@, source@, params));
    Ok(())
}

/// Where the fluid is at rest, advection moves nothing: every output sample
/// is the source sample at the same grid point, weakened by the factor
/// `1 - dissipation * dt`.
pub proof fn lemma_advection_at_rest(
    velocity: FieldView,
    source: FieldView,
    params: AdvectionUniforms,
    x: int,
    y: int,
)
    requires
        velocity.wf(),
        source.wf(),
        source.same_shape(velocity),
        source.contains(x, y),
        forall|i: int|
            0 <= i < velocity.samples.len() ==> velocity.samples[i].r == 0
                && velocity.samples[i].g == 0,
    ensures
        source.with_samples(advect_samples(velocity, source, params)).at(x, y) == (Sample {
            r: decayed(source.at(x, y).r as int, params),
            g: decayed(source.at(x, y).g as int, params),
            b: decayed(source.at(x, y).b as int, params),
            a: decayed(source.at(x, y).a as int, params),
        }),
{
    lemma_grid_map_at(source, |x: int, y: int| advect_at(velocity, source, params, x, y), x, y);
    lemma_clamped_on_grid(velocity, x, y);
    lemma_row_major(x, y, velocity.width as int, velocity.height as int);
    let v = velocity.clamped(x, y);
    assert(v.r == 0 && v.g == 0);
    let dt = params.dt as int;
    assert(dt * 0 == 0);
    assert(fx_mul(dt, v.r as int) == 0);
    assert(fx_mul(dt, v.g as int) == 0);
    let px = backtrace(x, v.r as int, dt, source.width as int);
    let py = backtrace(y, v.g as int, dt, source.height as int);
    assert(px == x * ONE);
    assert(py == y * ONE);
    assert(px / (ONE as int) == x && px % (ONE as int) == 0);
    assert(py / (ONE as int) == y && py % (ONE as int) == 0);
    lemma_clamped_on_grid(source, x, y);
    let here = source.at(x, y);
    let right = source.clamped(x + 1, y);
    let above = source.clamped(x, y + 1);
    let across = source.clamped(x + 1, y + 1);
    lemma_bilinear_at_corner(here.r as int, right.r as int, above.r as int, across.r as int);
    lemma_bilinear_at_corner(here.g as int, right.g as int, above.g as int, across.g as int);
    lemma_bilinear_at_corner(here.b as int, right.b as int, above.b as int, across.b as int);
    lemma_bilinear_at_corner(here.a as int, right.a as int, above.a as int, across.a as int);
}

/// Nothing that has dissipated is left of nothing.
pub proof fn lemma_zero_decays_to_zero(params: AdvectionUniforms)
    ensures
        decayed(0, params) == 0,
{
    assert(0 * decay_factor(params) == 0);
}

/// With both weights zero, interpolation gives the first corner.
pub proof fn lemma_bilinear_at_corner(c00: int, c10: int, c01: int, c11: int)
    ensures
        bilinear(c00, c10, c01, c11, 0, 0) == c00,
{
    assert((c10 - c00) * 0 == 0);
    assert((c11 - c01) * 0 == 0);
    assert(fx_lerp(c00, c10, 0) == c00);
    assert(fx_lerp(c01, c11, 0) == c01);
    assert((c01 - c00) * 0 == 0);
}

/// A fluid at rest stays at rest when it is advected by itself.
pub proof fn lemma_still_fluid_stays_still(velocity: FieldView, params: AdvectionUniforms)
    requires
        velocity.wf(),
        velocity.is_still(),
    ensures
        velocity.with_samples(advect_samples(velocity, velocity, params)).is_still(),
{
    let after = velocity.with_samples(advect_samples(velocity, velocity, params));
    assert forall|i: int| 0 <= i < after.samples.len() implies (#[trigger] after.samples[i]).r == 0
        && after.samples[i].g == 0 by {
        lemma_index_on_grid(velocity, i);
        let x = velocity.column(i);
        let y = velocity.row(i);
        lemma_advection_at_rest(velocity, velocity, params, x, y);
        lemma_zero_decays_to_zero(params);
        assert(after.at(x, y) == after.samples[i]);
    }
}

} // verus!
