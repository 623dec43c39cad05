//! A fluid at rest: with no velocity, no pressure and no wind, a tick moves
//! nothing. The velocity and the pressure stay zero, and the density stays
//! where it is and only fades.

use crate::advection::{
    advect_samples, decayed, lemma_advection_at_rest, lemma_still_fluid_stays_still,
    AdvectionUniforms,
};
use crate::curl::{curl_samples, lemma_still_fluid_has_no_curl};
use crate::divergence::{divergence_samples, lemma_still_fluid_has_no_divergence};
use crate::field::{lemma_same_samples, Sample};
use crate::gradient_subtract::{gradient_subtract_samples, lemma_still_fluid_is_not_pushed};
use crate::pressure::lemma_level_pressure_is_steady;
use crate::simulation::{projection_uniforms, FluidConfig, Pass, SimulationView, TexturesView};
use crate::textures::lemma_calm_winds_are_blank;
use crate::behaviour::lemma_scan_keeps_width;
use crate::universe::Wind;
use crate::vorticity::{lemma_still_fluid_is_not_confined, vorticity_samples, VorticityUniforms};
use vstd::prelude::*;

verus! {

/// The fields of a fluid at rest under no pressure and no wind.
pub open spec fn at_rest(textures: TexturesView) -> bool {
    &&& textures.compatible()
    &&& textures.velocity.front.is_still()
    &&& textures.pressure.front.is_level(0)
    &&& textures.burns.is_still()
}

/// The density sample `before` after it has faded for the time `dt`.
pub open spec fn faded(before: Sample, config: FluidConfig, dt: i32) -> Sample {
    let params = AdvectionUniforms { dt, dissipation: config.density_dissipation };
    Sample {
        r: decayed(before.r as int, params),
        g: decayed(before.g as int, params),
        b: decayed(before.b as int, params),
        a: decayed(before.a as int, params),
    }
}

/// Advection of the velocity leaves a fluid at rest as it is.
pub proof fn lemma_rest_after_velocity_advection(
    textures: TexturesView,
    config: FluidConfig,
    dt: i32,
)
    requires
        at_rest(textures),
    ensures
        at_rest(textures.after(Pass::VelocityAdvection, config, dt)),
        textures.after(Pass::VelocityAdvection, config, dt).density == textures.density,
{
    let flow = AdvectionUniforms { dt, dissipation: config.velocity_dissipation };
    let samples = advect_samples(textures.velocity.front, textures.velocity.front, flow);
    lemma_still_fluid_stays_still(textures.velocity.front, flow);
    lemma_same_samples(
        textures.velocity.back.with_samples(samples),
        textures.velocity.front.with_samples(samples),
    );
}

/// In a fluid at rest, advection leaves every density sample where it is
/// and lets it fade.
pub proof fn lemma_rest_after_density_advection(
    textures: TexturesView,
    config: FluidConfig,
    dt: i32,
)
    requires
        at_rest(textures),
    ensures
        at_rest(textures.after(Pass::DensityAdvection, config, dt)),
        textures.after(Pass::DensityAdvection, config, dt).density.front.same_shape(
            textures.density.front,
        ),
        forall|x: int, y: int|
            textures.density.front.contains(x, y) ==> #[trigger] textures.after(
                Pass::DensityAdvection,
                config,
                dt,
            ).density.front.at(x, y) == faded(textures.density.front.at(x, y), config, dt),
{
    let carry = AdvectionUniforms { dt, dissipation: config.density_dissipation };
    let after = textures.after(Pass::DensityAdvection, config, dt);
    let before = textures.density.front;
    assert forall|x: int, y: int| before.contains(x, y) implies #[trigger] after.density.front.at(
        x,
        y,
    ) == faded(before.at(x, y), config, dt) by {
        lemma_advection_at_rest(textures.velocity.front, textures.density.front, carry, x, y);
    }
}

/// A fluid at rest has no curl, and the curl pass leaves it at rest.
pub proof fn lemma_rest_after_curl(textures: TexturesView, config: FluidConfig, dt: i32)
    requires
        at_rest(textures),
    ensures
        at_rest(textures.after(Pass::Curl, config, dt)),
        textures.after(Pass::Curl, config, dt).curl.is_level(0),
        textures.after(Pass::Curl, config, dt).density == textures.density,
{
    let samples = curl_samples(textures.velocity.front);
    lemma_still_fluid_has_no_curl(textures.velocity.front);
    lemma_same_samples(
        textures.curl.with_samples(samples),
        textures.velocity.front.with_samples(samples),
    );
}

/// Without curl, confinement leaves a fluid at rest as it is.
pub proof fn lemma_rest_after_vorticity(textures: TexturesView, config: FluidConfig, dt: i32)
    requires
        at_rest(textures),
        textures.curl.is_level(0),
    ensures
        at_rest(textures.after(Pass::Vorticity, config, dt)),
        textures.after(Pass::Vorticity, config, dt).density == textures.density,
{
    let spin = VorticityUniforms { curl_strength: config.curl_strength, dt };
    let samples = vorticity_samples(textures.curl, textures.velocity.front, spin);
    lemma_still_fluid_is_not_confined(textures.curl, textures.velocity.front, spin, 0);
    lemma_same_samples(
        textures.velocity.back.with_samples(samples),
        textures.velocity.front.with_samples(samples),
    );
}

/// A fluid at rest has no divergence, and the divergence pass leaves it at
/// rest.
pub proof fn lemma_rest_after_divergence(textures: TexturesView, config: FluidConfig, dt: i32)
    requires
        at_rest(textures),
    ensures
        at_rest(textures.after(Pass::Divergence, config, dt)),
        textures.after(Pass::Divergence, config, dt).divergence.is_level(0),
        textures.after(Pass::Divergence, config, dt).density == textures.density,
{
    let samples = divergence_samples(textures.velocity.front);
    lemma_still_fluid_has_no_divergence(textures.velocity.front);
    lemma_same_samples(
        textures.divergence.with_samples(samples),
        textures.velocity.front.with_samples(samples),
    );
}

/// Without divergence, relaxation leaves the pressure of a fluid at rest at
/// zero.
pub proof fn lemma_rest_after_pressure(textures: TexturesView, config: FluidConfig, dt: i32)
    requires
        at_rest(textures),
        textures.divergence.is_level(0),
    ensures
        at_rest(textures.after(Pass::Pressure, config, dt)),
        textures.after(Pass::Pressure, config, dt).density == textures.density,
{
    lemma_level_pressure_is_steady(
        textures.pressure,
        textures.divergence,
        0,
        config.pressure_iterations as nat,
    );
}

/// Projection leaves a fluid at rest as it is.
pub proof fn lemma_rest_after_projection(textures: TexturesView, config: FluidConfig, dt: i32)
    requires
        at_rest(textures),
    ensures
        at_rest(textures.after(Pass::GradientSubtract, config, dt)),
        textures.after(Pass::GradientSubtract, config, dt).density == textures.density,
{
    let samples = gradient_subtract_samples(
        textures.pressure.front,
        textures.velocity.front,
        textures.burns,
        projection_uniforms(),
    );
    lemma_still_fluid_is_not_pushed(
        textures.pressure.front,
        textures.velocity.front,
        textures.burns,
        projection_uniforms(),
        0,
    );
    lemma_same_samples(
        textures.velocity.back.with_samples(samples),
        textures.velocity.front.with_samples(samples),
    );
}

/// The display pass leaves a fluid at rest as it is.
pub proof fn lemma_rest_after_display(textures: TexturesView, config: FluidConfig, dt: i32)
    requires
        at_rest(textures),
    ensures
        at_rest(textures.after(Pass::VelocityOut, config, dt)),
        textures.after(Pass::VelocityOut, config, dt).density == textures.density,
{
}

/// The passes leave a fluid at rest as it is: its velocity and its pressure
/// stay zero, and its density does not move but only fades.
pub proof fn lemma_passes_keep_rest(textures: TexturesView, config: FluidConfig, dt: i32)
    requires
        at_rest(textures),
    ensures
        at_rest(textures.after_all(config, dt)),
        textures.after_all(config, dt).density.front.same_shape(textures.density.front),
        forall|x: int, y: int|
            textures.density.front.contains(x, y) ==> #[trigger] textures.after_all(
                config,
                dt,
            ).density.front.at(x, y) == faded(textures.density.front.at(x, y), config, dt),
{
    let a = textures.after(Pass::VelocityAdvection, config, dt);
    lemma_rest_after_velocity_advection(textures, config, dt);
    let b = a.after(Pass::DensityAdvection, config, dt);
    lemma_rest_after_density_advection(a, config, dt);
    let c = b.after(Pass::Curl, config, dt);
    lemma_rest_after_curl(b, config, dt);
    let d = c.after(Pass::Vorticity, config, dt);
    lemma_rest_after_vorticity(c, config, dt);
    let e = d.after(Pass::Divergence, config, dt);
    lemma_rest_after_divergence(d, config, dt);
    let f = e.after(Pass::Pressure, config, dt);
    lemma_rest_after_pressure(e, config, dt);
    let g = f.after(Pass::GradientSubtract, config, dt);
    lemma_rest_after_projection(f, config, dt);
    let h = g.after(Pass::VelocityOut, config, dt);
    lemma_rest_after_display(g, config, dt);
    assert(h == textures.after_all(config, dt));
    assert(h.density == b.density);
    let before = textures.density.front;
    assert forall|x: int, y: int| before.contains(x, y) implies #[trigger] h.density.front.at(
        x,
        y,
    ) == faded(before.at(x, y), config, dt) by {
        assert(a.density.front.contains(x, y));
        assert(b.density.front.at(x, y) == faded(a.density.front.at(x, y), config, dt));
    }
}

/// In calm air, a tick leaves a fluid at rest as it is: its velocity and its
/// pressure stay zero everywhere, and every density sample stays where it is
/// and fades by the factor `1 - density_dissipation * dt`.
pub proof fn lemma_fluid_at_rest_stays_at_rest(state: SimulationView, dt: i32, x: int, y: int)
    requires
        state.compatible(),
        state.textures.velocity.front.is_still(),
        state.textures.pressure.front.is_level(0),
        forall|i: int| 0 <= i < state.grid.winds.len() ==> state.grid.winds[i] == Wind::calm(),
        state.textures.density.front.contains(x, y),
    ensures
        state.ticked(dt).textures.velocity.front.is_still(),
        state.ticked(dt).textures.pressure.front.is_level(0),
        state.ticked(dt).textures.density.front.at(x, y) == faded(
            state.textures.density.front.at(x, y),
            state.config,
            dt,
        ),
{
    let forced = state.forced();
    lemma_scan_keeps_width(state.grid, 0);
    lemma_calm_winds_are_blank(forced.grid, state.textures.burns);
    assert(at_rest(forced.textures));
    lemma_passes_keep_rest(forced.textures, forced.config, dt);
}

} // verus!
