//! Vorticity confinement: a small force that keeps vortices from fading
//! under the dissipation of advection.
//!
//! At every grid point the direction in which the magnitude of the curl
//! grows is normalised to unit length, scaled by `curl_strength * dt`, turned
//! by a quarter turn and added to the velocity.

use crate::field::{lemma_clamped_on_grid, lemma_level_reads, Field, FieldView, Sample};
use crate::fixed::{
    clamp_to_channel, div_toward_zero, floor_sqrt, fx_mul, is_floor_sqrt, isqrt, lemma_floor_sqrt_unique,
    lemma_product_bound, mul_fixed, saturate, trunc_div, ONE,
};
use crate::pass::{grid_map, lemma_grid_map_at, lemma_index_on_grid, PassError};
use vstd::prelude::*;

verus! {

/// The parameters of the confinement pass, as fixed-point numbers.
#[derive(Clone, Copy, Debug, PartialEq, Eq, Structural)]
pub struct VorticityUniforms {
    /// Strength of the confinement force.
    pub curl_strength: i32,
    /// Length of the time step in seconds.
    pub dt: i32,
}

/// The absolute value of `v`.
pub open spec fn magnitude(v: int) -> int {
    if v < 0 {
        -v
    } else {
        v
    }
}

/// Sixty-five thousand five hundred and thirty-six times the length of the
/// vector `(c, other)`, rounded down.
pub open spec fn scaled_length(c: int, other: int) -> int {
    floor_sqrt((c * c + other * other) * 0x1_0000_0000)
}

/// The component `c` of the vector `(c, other)` after the vector has been
/// brought to unit length, as a fixed-point number. The zero vector stays
/// zero.
pub open spec fn unit_component(c: int, other: int) -> int {
    let length = scaled_length(c, other);
    if length == 0 {
        0
    } else {
        trunc_div(c * 0x1_0000_0000, length)
    }
}

/// The velocity at `(x, y)` after confinement. The channels `b` and `a` of
/// the velocity sample pass through.
pub open spec fn vorticity_at(
    curl: FieldView,
    velocity: FieldView,
    params: VorticityUniforms,
    x: int,
    y: int,
) -> Sample {
    let growth_x = magnitude(curl.clamped(x + 1, y).r as int) - magnitude(
        curl.clamped(x - 1, y).r as int,
    );
    let growth_y = magnitude(curl.clamped(x, y + 1).r as int) - magnitude(
        curl.clamped(x, y - 1).r as int,
    );
    let strength = fx_mul(params.curl_strength as int, params.dt as int);
    let push_x = fx_mul(unit_component(growth_x, growth_y), strength);
    let push_y = fx_mul(unit_component(growth_y, growth_x), strength);
    let v = velocity.clamped(x, y);
    Sample {
        r: saturate(v.r + push_y) as i32,
        g: saturate(v.g - push_x) as i32,
        b: v.b,
        a: v.a,
    }
}

/// The velocity field after confinement.
pub open spec fn vorticity_samples(
    curl: FieldView,
    velocity: FieldView,
    params: VorticityUniforms,
) -> Seq<Sample> {
    grid_map(velocity, |x: int, y: int| vorticity_at(curl, velocity, params, x, y))
}

/// A component of a unit vector is at most one in magnitude.
pub proof fn lemma_unit_component_bound(c: int, other: int, length: int)
    requires
        is_floor_sqrt((c * c + other * other) * 0x1_0000_0000, length),
        length > 0,
    ensures
        -ONE <= trunc_div(c * 0x1_0000_0000, length) <= ONE,
{
    let m = magnitude(c);
    let n = (c * c + other * other) * 0x1_0000_0000;
    assert(m * m == c * c) by (nonlinear_arith)
        requires
            m == c || m == -c,
    ;
    assert((m * 65536) * (m * 65536) <= n) by (nonlinear_arith)
        requires
            m * m == c * c,
            n == (c * c + other * other) * 0x1_0000_0000,
    ;
    assert(length >= m * 65536) by (nonlinear_arith)
        requires
            (m * 65536) * (m * 65536) <= n,
            n < (length + 1) * (length + 1),
            length >= 0,
            m >= 0,
    ;
    assert((m * 0x1_0000_0000) / length <= 65536) by (nonlinear_arith)
        requires
            length >= m * 65536,
            length > 0,
            m >= 0,
    ;
    assert(0 <= (m * 0x1_0000_0000) / length) by (nonlinear_arith)
        requires
            length > 0,
            m >= 0,
    ;
}

/// The absolute value of a channel.
fn channel_magnitude(v: i32) -> (m: i64)
    ensures
        m == magnitude(v as int),
        0 <= m <= 0x8000_0000,
{
    if v < 0 {
        -(v as i64)
    } else {
        v as i64
    }
}

/// Brings the vector `(c, other)` to unit length and returns its component
/// `c`. Both components must be at most two to the power of thirty-one in
/// magnitude, so that the sum of their squares can be held.
pub fn normalise(c: i64, other: i64) -> (u: i32)
    requires
        -0x8000_0000 <= c <= 0x8000_0000,
        -0x8000_0000 <= other <= 0x8000_0000,
    ensures
        u == unit_component(c as int, other as int),
        -ONE <= u <= ONE,
{
    proof {
        lemma_product_bound(c as int, c as int, 0x8000_0000, 0x8000_0000);
        lemma_product_bound(other as int, other as int, 0x8000_0000, 0x8000_0000);
        assert(c * c >= 0 && other * other >= 0) by (nonlinear_arith);
    }
    let squares: u128 = ((c as i128) * (c as i128) + (other as i128) * (other as i128)) as u128;
    let length: u128 = isqrt(squares * 0x1_0000_0000);
    if length == 0 {
        0
    } else {
        proof {
            lemma_unit_component_bound(c as int, other as int, length as int);
        }
        let wide: i128 = (c as i128) * 0x1_0000_0000;
        let quotient: i128 = if wide >= 0 {
            wide / (length as i128)
        } else {
            -((-wide) / (length as i128))
        };
        quotient as i32
    }
}

/// Computes the velocity at `(x, y)` after confinement.
fn vorticity_sample(
    curl: &Field,
    velocity: &Field,
    params: VorticityUniforms,
    x: i64,
    y: i64,
) -> (out: Sample)
    requires
        -1 <= x <= 0x4000_0000,
        -1 <= y <= 0x4000_0000,
    ensures
        out == vorticity_at(curl@, velocity@, params, x as int, y as int),
{
    let growth_x: i64 = channel_magnitude(curl.sample_clamped(x + 1, y).r) - channel_magnitude(
        curl.sample_clamped(x - 1, y).r,
    );
    let growth_y: i64 = channel_magnitude(curl.sample_clamped(x, y + 1).r) - channel_magnitude(
        curl.sample_clamped(x, y - 1).r,
    );
    let strength: i64 = mul_fixed(params.curl_strength, params.dt);
    let unit_x: i64 = normalise(growth_x, growth_y) as i64;
    let unit_y: i64 = normalise(growth_y, growth_x) as i64;
    proof {
        lemma_product_bound(unit_x as int, strength as int, 0x1_0000, 0x4000_0000_0000);
        lemma_product_bound(unit_y as int, strength as int, 0x1_0000, 0x4000_0000_0000);
    }
    let push_x: i64 = div_toward_zero(unit_x * strength, 65536);
    let push_y: i64 = div_toward_zero(unit_y * strength, 65536);
    let v = velocity.sample_clamped(x, y);
    Sample {
        r: clamp_to_channel((v.r as i64) + push_y),
        g: clamp_to_channel((v.g as i64) - push_x),
        b: v.b,
        a: v.a,
    }
}

/// Adds the confinement force derived from `curl` to `velocity` and writes
/// the result into `output`.
pub fn vorticity(
    curl: &Field,
    velocity: &Field,
    params: VorticityUniforms,
    output: &mut Field,
) -> (res: Result<(), PassError>)
    ensures
        res.is_ok() <==> curl@.same_shape(velocity@) && old(output)@.same_shape(velocity@),
        res.is_ok() ==> final(output)@ == old(output)@.with_samples(
            vorticity_samples(curl@, velocity@, params),
        ),
        res.is_err() ==> res == Err::<(), PassError>(PassError::ShapeMismatch) && final(output)@
            == old(output)@,
{
    let width: usize = velocity.width();
    let height: usize = velocity.height();
    let count: usize = velocity.len();
    if curl.width() != width || curl.height() != height || output.width() != width
        || output.height() != height {
        return Err(PassError::ShapeMismatch);
    }
    let ghost before = output@;
    let mut i: usize = 0;
    while i < count
        invariant
            i <= count <= 0x4000_0000,
            count == velocity@.samples.len(),
            width == velocity@.width,
            velocity@.wf(),
            output@.width == before.width,
            output@.height == before.height,
            output@.layout == before.layout,
            output@.samples.len() == count,
            forall|j: int|
                0 <= j < i ==> output@.samples[j] == vorticity_at(
                    curl@,
                    velocity@,
                    params,
                    velocity@.column(j),
                    velocity@.row(j),
                ),
        decreases count - i,
    {
        let x: i64 = (i % width) as i64;
        let y: i64 = (i / width) as i64;
        let sample = vorticity_sample(curl, velocity, params, x, y);
        output.write_row_major(i, sample);
        i += 1;
    }
    assert(output@.samples =~= vorticity_samples(curl@, velocity@, params));
    Ok(())
}

/// The zero vector has no direction: both components of its unit vector are
/// zero.
pub proof fn lemma_zero_has_no_direction()
    ensures
        unit_component(0, 0) == 0,
{
    lemma_floor_sqrt_unique(0, 0);
}

/// Where the curl is the same everywhere, confinement changes nothing: every
/// velocity sample is written as it was.
pub proof fn lemma_level_curl_confines_nothing(
    curl: FieldView,
    velocity: FieldView,
    params: VorticityUniforms,
    level: int,
    x: int,
    y: int,
)
    requires
        curl.wf(),
        velocity.wf(),
        curl.same_shape(velocity),
        curl.is_level(level),
        velocity.contains(x, y),
    ensures
        velocity.with_samples(vorticity_samples(curl, velocity, params)).at(x, y) == velocity.at(
            x,
            y,
        ),
        vorticity_at(curl, velocity, params, x, y) == velocity.at(x, y),
{
    lemma_grid_map_at(velocity, |x: int, y: int| vorticity_at(curl, velocity, params, x, y), x, y);
    lemma_level_reads(curl, level, x - 1, y);
    lemma_level_reads(curl, level, x + 1, y);
    lemma_level_reads(curl, level, x, y - 1);
    lemma_level_reads(curl, level, x, y + 1);
    lemma_clamped_on_grid(velocity, x, y);
    lemma_zero_has_no_direction();
    let strength = fx_mul(params.curl_strength as int, params.dt as int);
    assert(0 * strength == 0);
}

/// Where the curl is the same everywhere, a fluid at rest stays at rest
/// under confinement.
pub proof fn lemma_still_fluid_is_not_confined(
    curl: FieldView,
    velocity: FieldView,
    params: VorticityUniforms,
    level: int,
)
    requires
        curl.wf(),
        velocity.wf(),
        curl.same_shape(velocity),
        curl.is_level(level),
        velocity.is_still(),
    ensures
        velocity.with_samples(vorticity_samples(curl, velocity, params)).is_still(),
{
    let after = velocity.with_samples(vorticity_samples(curl, velocity, params));
    assert forall|i: int| 0 <= i < after.samples.len() implies (#[trigger] after.samples[i]).r == 0
        && after.samples[i].g == 0 by {
        lemma_index_on_grid(velocity, i);
        let x = velocity.column(i);
        let y = velocity.row(i);
        lemma_level_curl_confines_nothing(curl, velocity, params, level, x, y);
        assert(velocity.at(x, y) == velocity.samples[i]);
    }
}

} // verus!
