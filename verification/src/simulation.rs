//! The whole simulation: the automaton, the fields of the fluid and the fixed
//! order in which the passes run.
//!
//! One tick runs, in this order: the automaton; the refresh of the forcing
//! fields; advection of the velocity by itself; advection of the density by
//! the new velocity; curl; vorticity confinement; divergence; pressure
//! relaxation; projection with forcing; remapping for display. A pass that
//! writes a double buffer swaps it at once, so the next pass reads the result
//! as the current state.

use crate::advection::{advect, advect_samples, AdvectionUniforms};
use crate::buffer::{BufferView, DoubleBuffer};
use crate::curl::{curl, curl_samples};
use crate::divergence::{divergence, divergence_samples};
use crate::field::{ChannelLayout, Field, FieldView, Sample, MAX_DIM};
use crate::gradient_subtract::{
    gradient_subtract, gradient_subtract_samples, GradientSubtractUniforms,
};
use crate::pass::PassError;
use crate::pressure::{relaxed, solve_pressure};
use crate::textures::{burns_samples, cells_samples, covers, update_burns_and_cells_textures};
use crate::universe::{CellGrid, GridView};
use crate::velocity_out::{velocity_out, velocity_out_samples, VelocityOutUniforms};
use crate::vorticity::{vorticity, vorticity_samples, VorticityUniforms};
use vstd::prelude::*;

verus! {

/// The longest time step, in microseconds, that a tick will take. Longer
/// frames are simulated as if they had taken this long.
pub const MAX_FRAME_MICROS: u64 = 16000;

/// Factor applied to the wind field in the projection pass: minus twenty-five.
pub const WIND_STRENGTH: i32 = -1638400;

/// Factor applied to the velocity in the projection pass: ninety-five
/// hundredths.
pub const DAMPING: i32 = 62259;

/// The velocity shown as zero by the display field.
pub const VELOCITY_MIN: i32 = -16384000;

/// The velocity shown as one by the display field.
pub const VELOCITY_MAX: i32 = 16384000;

/// The parameters of the solver, as fixed-point numbers.
#[derive(Clone, Copy, Debug, PartialEq, Eq, Structural)]
pub struct FluidConfig {
    /// Share of the velocity that is lost per second.
    pub velocity_dissipation: i32,
    /// Share of the density that is lost per second.
    pub density_dissipation: i32,
    /// Strength of the vorticity confinement.
    pub curl_strength: i32,
    /// Factor for weakening the pressure between ticks with
    /// [`crate::clear::clear`]. No pass of a tick reads it.
    pub pressure_dissipation: i32,
    /// Number of relaxation steps per tick.
    pub pressure_iterations: u32,
}

impl Default for FluidConfig {
    fn default() -> (config: FluidConfig)
        ensures
            config == (FluidConfig {
                velocity_dissipation: 0,
                density_dissipation: 0,
                curl_strength: 0,
                pressure_dissipation: 0,
                pressure_iterations: 0,
            }),
    {
        FluidConfig {
            velocity_dissipation: 0,
            density_dissipation: 0,
            curl_strength: 0,
            pressure_dissipation: 0,
            pressure_iterations: 0,
        }
    }
}

/// The passes of the solver, in the order in which a tick runs them.
#[derive(Clone, Copy, Debug, PartialEq, Eq, Structural)]
pub enum Pass {
    VelocityAdvection,
    DensityAdvection,
    Curl,
    Vorticity,
    Divergence,
    Pressure,
    GradientSubtract,
    VelocityOut,
}

/// The time step of a frame that took `elapsed_micros` microseconds, in
/// seconds as a fixed-point number.
pub open spec fn frame_dt_of(elapsed_micros: int) -> int {
    let limited = if elapsed_micros > MAX_FRAME_MICROS {
        MAX_FRAME_MICROS as int
    } else {
        elapsed_micros
    };
    (limited * 65536) / 1000000
}

/// The time step of a frame that took `elapsed_micros` microseconds. Frames
/// longer than [`MAX_FRAME_MICROS`] count as that long.
pub fn frame_dt(elapsed_micros: u64) -> (dt: i32)
    ensures
        dt == frame_dt_of(elapsed_micros as int),
        0 <= dt <= 1048,
{
    let limited: u64 = if elapsed_micros > MAX_FRAME_MICROS {
        MAX_FRAME_MICROS
    } else {
        elapsed_micros
    };
    ((limited * 65536) / 1000000) as i32
}

/// The parameters of the projection pass.
pub open spec fn projection_uniforms() -> GradientSubtractUniforms {
    GradientSubtractUniforms { wind_strength: WIND_STRENGTH, damping: DAMPING }
}

/// The parameters of the display pass.
pub open spec fn display_uniforms() -> VelocityOutUniforms {
    VelocityOutUniforms {
        min_value: VELOCITY_MIN,
        max_value: VELOCITY_MAX,
        scale_factor: 65536,
        offset: 0,
    }
}

/// A double buffer after a pass wrote `samples` to its back field and the
/// buffer was swapped.
pub open spec fn committed(buffer: BufferView, samples: Seq<Sample>) -> BufferView {
    BufferView { front: buffer.back.with_samples(samples), back: buffer.front }
}

/// The mathematical content of the fields of the fluid.
pub ghost struct TexturesView {
    pub velocity: BufferView,
    pub density: BufferView,
    pub pressure: BufferView,
    pub curl: FieldView,
    pub divergence: FieldView,
    pub burns: FieldView,
    pub cells: FieldView,
    pub velocity_out: FieldView,
}

impl TexturesView {
    /// Every field is well formed and covers the same grid.
    pub open spec fn compatible(self) -> bool {
        let shape = self.velocity.front;
        &&& self.velocity.wf()
        &&& self.density.wf()
        &&& self.pressure.wf()
        &&& self.curl.wf()
        &&& self.divergence.wf()
        &&& self.burns.wf()
        &&& self.cells.wf()
        &&& self.velocity_out.wf()
        &&& self.density.front.same_shape(shape)
        &&& self.pressure.front.same_shape(shape)
        &&& self.curl.same_shape(shape)
        &&& self.divergence.same_shape(shape)
        &&& self.burns.same_shape(shape)
        &&& self.cells.same_shape(shape)
        &&& self.velocity_out.same_shape(shape)
    }

    /// Every sample of every field is zero.
    pub open spec fn is_blank(self) -> bool {
        &&& self.velocity.front.is_blank()
        &&& self.velocity.back.is_blank()
        &&& self.density.front.is_blank()
        &&& self.density.back.is_blank()
        &&& self.pressure.front.is_blank()
        &&& self.pressure.back.is_blank()
        &&& self.curl.is_blank()
        &&& self.divergence.is_blank()
        &&& self.burns.is_blank()
        &&& self.cells.is_blank()
        &&& self.velocity_out.is_blank()
    }

    /// The fields after `pass` ran with time step `dt`.
    pub open spec fn after(self, pass: Pass, config: FluidConfig, dt: i32) -> TexturesView {
        match pass {
            Pass::VelocityAdvection => TexturesView {
                velocity: committed(
                    self.velocity,
                    advect_samples(
                        self.velocity.front,
                        self.velocity.front,
                        AdvectionUniforms { dt, dissipation: config.velocity_dissipation },
                    ),
                ),
                ..self
            },
            Pass::DensityAdvection => TexturesView {
                density: committed(
                    self.density,
                    advect_samples(
                        self.velocity.front,
                        self.density.front,
                        AdvectionUniforms { dt, dissipation: config.density_dissipation },
                    ),
                ),
                ..self
            },
            Pass::Curl => TexturesView {
                curl: self.curl.with_samples(curl_samples(self.velocity.front)),
                ..self
            },
            Pass::Vorticity => TexturesView {
                velocity: committed(
                    self.velocity,
                    vorticity_samples(
                        self.curl,
                        self.velocity.front,
                        VorticityUniforms { curl_strength: config.curl_strength, dt },
                    ),
                ),
                ..self
            },
            Pass::Divergence => TexturesView {
                divergence: self.divergence.with_samples(divergence_samples(self.velocity.front)),
                ..self
            },
            Pass::Pressure => TexturesView {
                pressure: relaxed(
                    self.pressure,
                    self.divergence,
                    config.pressure_iterations as nat,
                ),
                ..self
            },
            Pass::GradientSubtract => TexturesView {
                velocity: committed(
                    self.velocity,
                    gradient_subtract_samples(
                        self.pressure.front,
                        self.velocity.front,
                        self.burns,
                        projection_uniforms(),
                    ),
                ),
                ..self
            },
            Pass::VelocityOut => TexturesView {
                velocity_out: self.velocity_out.with_samples(
                    velocity_out_samples(self.velocity.front, display_uniforms()),
                ),
                ..self
            },
        }
    }

    /// The fields after all passes ran in order.
    pub open spec fn after_all(self, config: FluidConfig, dt: i32) -> TexturesView {
        self.after(Pass::VelocityAdvection, config, dt).after(
            Pass::DensityAdvection,
            config,
            dt,
        ).after(Pass::Curl, config, dt).after(Pass::Vorticity, config, dt).after(
            Pass::Divergence,
            config,
            dt,
        ).after(Pass::Pressure, config, dt).after(Pass::GradientSubtract, config, dt).after(
            Pass::VelocityOut,
            config,
            dt,
        )
    }
}

/// The fields of the fluid.
pub struct FluidTextures {
    pub velocity: DoubleBuffer,
    pub density: DoubleBuffer,
    pub pressure: DoubleBuffer,
    pub curl: Field,
    pub divergence: Field,
    pub burns: Field,
    pub cells: Field,
    pub velocity_out: Field,
}

impl View for FluidTextures {
    type V = TexturesView;

    open spec fn view(&self) -> TexturesView {
        TexturesView {
            velocity: self.velocity@,
            density: self.density@,
            pressure: self.pressure@,
            curl: self.curl@,
            divergence: self.divergence@,
            burns: self.burns@,
            cells: self.cells@,
            velocity_out: self.velocity_out@,
        }
    }
}

/// Whether `field` covers a grid of `width` by `height` samples.
fn has_shape(field: &Field, width: usize, height: usize) -> (same: bool)
    ensures
        same == (field@.width == width && field@.height == height),
        field@.wf(),
{
    field.width() == width && field.height() == height
}

impl FluidTextures {
    /// Zero-initialised fields over a grid of `width` by `height` samples, or
    /// `None` if a dimension is zero or larger than [`MAX_DIM`].
    pub fn new(width: usize, height: usize) -> (out: Option<FluidTextures>)
        ensures
            out.is_some() <==> 1 <= width <= MAX_DIM && 1 <= height <= MAX_DIM,
            out.is_some() ==> ({
                let t = out.unwrap()@;
                &&& t.compatible()
                &&& t.velocity.front.width == width
                &&& t.velocity.front.height == height
                &&& t.is_blank()
                &&& t.velocity.front.layout == ChannelLayout::Velocity
                &&& t.velocity.back.layout == ChannelLayout::Velocity
                &&& t.density.front.layout == ChannelLayout::Color
                &&& t.density.back.layout == ChannelLayout::Color
                &&& t.pressure.front.layout == ChannelLayout::Scalar
                &&& t.pressure.back.layout == ChannelLayout::Scalar
                &&& t.curl.layout == ChannelLayout::Scalar
                &&& t.divergence.layout == ChannelLayout::Scalar
                &&& t.burns.layout == ChannelLayout::Forcing
                &&& t.cells.layout == ChannelLayout::Cells
                &&& t.velocity_out.layout == ChannelLayout::Color
            }),
    {
        let velocity = DoubleBuffer::new(width, height, ChannelLayout::Velocity);
        let density = DoubleBuffer::new(width, height, ChannelLayout::Color);
        let pressure = DoubleBuffer::new(width, height, ChannelLayout::Scalar);
        let curl = Field::allocate(width, height, ChannelLayout::Scalar);
        let divergence = Field::allocate(width, height, ChannelLayout::Scalar);
        let burns = Field::allocate(width, height, ChannelLayout::Forcing);
        let cells = Field::allocate(width, height, ChannelLayout::Cells);
        let velocity_out = Field::allocate(width, height, ChannelLayout::Color);
        match (velocity, density, pressure, curl, divergence, burns, cells, velocity_out) {
            (
                Some(velocity),
                Some(density),
                Some(pressure),
                Some(curl),
                Some(divergence),
                Some(burns),
                Some(cells),
                Some(velocity_out),
            ) => Some(
                FluidTextures {
                    velocity,
                    density,
                    pressure,
                    curl,
                    divergence,
                    burns,
                    cells,
                    velocity_out,
                },
            ),
            _ => None,
        }
    }

    /// Whether every field covers the same grid.
    pub fn is_compatible(&self) -> (ok: bool)
        ensures
            ok == self@.compatible(),
    {
        let width: usize = self.velocity.front().width();
        let height: usize = self.velocity.front().height();
        let velocity = has_shape(self.velocity.back(), width, height);
        let density = has_shape(self.density.front(), width, height) && has_shape(
            self.density.back(),
            width,
            height,
        );
        let pressure = has_shape(self.pressure.front(), width, height) && has_shape(
            self.pressure.back(),
            width,
            height,
        );
        let curl = has_shape(&self.curl, width, height);
        let divergence = has_shape(&self.divergence, width, height);
        let burns = has_shape(&self.burns, width, height);
        let cells = has_shape(&self.cells, width, height);
        let velocity_out = has_shape(&self.velocity_out, width, height);
        velocity && density && pressure && curl && divergence && burns && cells && velocity_out
    }

    /// Runs one pass with time step `dt`. A pass that writes a double buffer
    /// swaps it afterwards. Unless every field covers the same grid, nothing
    /// runs and nothing changes.
    pub fn run(&mut self, pass: Pass, config: FluidConfig, dt: i32) -> (res: Result<(), PassError>)
        ensures
            res.is_ok() <==> old(self)@.compatible(),
            res.is_ok() ==> final(self)@ == old(self)@.after(pass, config, dt),
            res.is_ok() ==> final(self)@.compatible(),
            res.is_err() ==> res == Err::<(), PassError>(PassError::ShapeMismatch) && final(self)@
                == old(self)@,
    {
        if !self.is_compatible() {
            return Err(PassError::ShapeMismatch);
        }
        match pass {
            Pass::VelocityAdvection => {
                let params = AdvectionUniforms { dt, dissipation: config.velocity_dissipation };
                let (front, back) = self.velocity.parts();
                let done = advect(front, front, params, back);
                self.velocity.swap();
                done
            },
            Pass::DensityAdvection => {
                let params = AdvectionUniforms { dt, dissipation: config.density_dissipation };
                let (front, back) = self.density.parts();
                let done = advect(self.velocity.front(), front, params, back);
                self.density.swap();
                done
            },
            Pass::Curl => curl(self.velocity.front(), &mut self.curl),
            Pass::Vorticity => {
                let params = VorticityUniforms { curl_strength: config.curl_strength, dt };
                let (front, back) = self.velocity.parts();
                let done = vorticity(&self.curl, front, params, back);
                self.velocity.swap();
                done
            },
            Pass::Divergence => divergence(self.velocity.front(), &mut self.divergence),
            Pass::Pressure => solve_pressure(
                &mut self.pressure,
                &self.divergence,
                config.pressure_iterations,
            ),
            Pass::GradientSubtract => {
                let params = GradientSubtractUniforms {
                    wind_strength: WIND_STRENGTH,
                    damping: DAMPING,
                };
                let (front, back) = self.velocity.parts();
                let done = gradient_subtract(
                    self.pressure.front(),
                    front,
                    &self.burns,
                    params,
                    back,
                );
                self.velocity.swap();
                done
            },
            Pass::VelocityOut => {
                let params = VelocityOutUniforms {
                    min_value: VELOCITY_MIN,
                    max_value: VELOCITY_MAX,
                    scale_factor: 65536,
                    offset: 0,
                };
                velocity_out(self.velocity.front(), params, &mut self.velocity_out)
            },
        }
    }
}

impl FluidTextures {
    /// Runs `pass` if the caller reports it ready and tells whether it ran.
    /// A pass that is not ready is skipped without any change and without
    /// an error, so that the caller can try again on the next tick.
    pub fn run_if_ready(&mut self, pass: Pass, ready: bool, config: FluidConfig, dt: i32) -> (res:
        Result<bool, PassError>)
        ensures
            res.is_ok() <==> !ready || old(self)@.compatible(),
            res.is_ok() ==> res.unwrap() == ready,
            res.is_ok() && ready ==> final(self)@ == old(self)@.after(pass, config, dt),
            res.is_ok() && !ready ==> final(self)@ == old(self)@,
            res.is_err() ==> res == Err::<bool, PassError>(PassError::ShapeMismatch),
            res.is_err() ==> final(self)@ == old(self)@,
    {
        if !ready {
            return Ok(false);
        }
        match self.run(pass, config, dt) {
            Ok(()) => Ok(true),
            Err(e) => Err(e),
        }
    }
}

/// The mathematical content of a simulation.
pub ghost struct SimulationView {
    pub config: FluidConfig,
    pub textures: TexturesView,
    pub grid: GridView,
}

impl SimulationView {
    /// The fields of the fluid agree in shape with each other and with the
    /// grid of the automaton.
    pub open spec fn compatible(self) -> bool {
        &&& self.textures.compatible()
        &&& self.grid.wf()
        &&& covers(self.textures.velocity.front, self.grid)
    }

    /// The simulation after the automaton ticked and the forcing fields
    /// were refreshed from it.
    pub open spec fn forced(self) -> SimulationView {
        let grid = self.grid.ticked();
        SimulationView {
            config: self.config,
            textures: TexturesView {
                burns: self.textures.burns.with_samples(burns_samples(grid)),
                cells: self.textures.cells.with_samples(cells_samples(grid)),
                ..self.textures
            },
            grid,
        }
    }

    /// The simulation one tick later, for the time step `dt`.
    pub open spec fn ticked(self, dt: i32) -> SimulationView {
        let forced = self.forced();
        SimulationView {
            config: forced.config,
            textures: forced.textures.after_all(forced.config, dt),
            grid: forced.grid,
        }
    }
}

/// The automaton, the fields of the fluid and the parameters of the solver.
pub struct SimulationState {
    pub config: FluidConfig,
    pub textures: FluidTextures,
    pub grid: CellGrid,
}

impl View for SimulationState {
    type V = SimulationView;

    open spec fn view(&self) -> SimulationView {
        SimulationView { config: self.config, textures: self.textures@, grid: self.grid@ }
    }
}

impl SimulationState {
    /// A simulation at rest over a grid of `width` by `height` points: zero
    /// fields and empty cells. `None` if a dimension is less than one or
    /// larger than [`MAX_DIM`].
    pub fn new(width: i32, height: i32, config: FluidConfig) -> (out: Option<SimulationState>)
        ensures
            out.is_some() <==> 1 <= width <= MAX_DIM && 1 <= height <= MAX_DIM,
            out.is_some() ==> ({
                let s = out.unwrap()@;
                &&& s.compatible()
                &&& s.config == config
                &&& s.grid.width == width
                &&& s.grid.height == height
                &&& s.grid.is_blank()
                &&& s.textures.is_blank()
            }),
    {
        if width < 1 || height < 1 {
            return None;
        }
        let grid = CellGrid::new(width, height);
        let textures = FluidTextures::new(width as usize, height as usize);
        match (grid, textures) {
            (Some(grid), Some(textures)) => Some(SimulationState { config, textures, grid }),
            _ => None,
        }
    }

    /// Whether the fields of the fluid agree in shape with each other and
    /// with the grid of the automaton.
    pub fn is_compatible(&self) -> (ok: bool)
        ensures
            ok == self@.compatible(),
    {
        let width: i32 = self.grid.width();
        let height: i32 = self.grid.height();
        self.textures.is_compatible() && self.textures.velocity.front().width() == width as usize
            && self.textures.velocity.front().height() == height as usize
    }

    /// The field that is handed to the display: the cells of the automaton
    /// as the last tick left them.
    pub fn output(&self) -> (field: &Field)
        ensures
            field@ == self@.textures.cells,
    {
        &self.textures.cells
    }

    /// Advances the simulation by one tick for a frame that took
    /// `elapsed_micros` microseconds. Unless the fields agree in shape with
    /// each other and with the grid, nothing runs and nothing changes.
    pub fn tick(&mut self, elapsed_micros: u64) -> (res: Result<(), PassError>)
        ensures
            res.is_ok() <==> old(self)@.compatible(),
            res.is_ok() ==> final(self)@ == old(self)@.ticked(
                frame_dt_of(elapsed_micros as int) as i32,
            ),
            res.is_ok() ==> final(self)@.compatible(),
            res.is_err() ==> res == Err::<(), PassError>(PassError::ShapeMismatch) && final(self)@
                == old(self)@,
    {
        if !self.is_compatible() {
            return Err(PassError::ShapeMismatch);
        }
        let dt: i32 = frame_dt(elapsed_micros);
        let config = self.config;
        self.grid.tick();
        update_burns_and_cells_textures(
            &self.grid,
            &mut self.textures.burns,
            &mut self.textures.cells,
        )?;
        self.textures.run(Pass::VelocityAdvection, config, dt)?;
        self.textures.run(Pass::DensityAdvection, config, dt)?;
        self.textures.run(Pass::Curl, config, dt)?;
        self.textures.run(Pass::Vorticity, config, dt)?;
        self.textures.run(Pass::Divergence, config, dt)?;
        self.textures.run(Pass::Pressure, config, dt)?;
        self.textures.run(Pass::GradientSubtract, config, dt)?;
        self.textures.run(Pass::VelocityOut, config, dt)?;
        proof {
            lemma_passes_keep_shape(old(self)@.forced().textures, config, dt);
        }
        Ok(())
    }
}

/// Running every pass keeps the shape of the velocity field.
pub proof fn lemma_passes_keep_shape(textures: TexturesView, config: FluidConfig, dt: i32)
    requires
        textures.compatible(),
    ensures
        textures.after_all(config, dt).velocity.front.same_shape(textures.velocity.front),
{
    let a = textures.after(Pass::VelocityAdvection, config, dt);
    let b = a.after(Pass::DensityAdvection, config, dt);
    let c = b.after(Pass::Curl, config, dt);
    let d = c.after(Pass::Vorticity, config, dt);
    let e = d.after(Pass::Divergence, config, dt);
    let f = e.after(Pass::Pressure, config, dt);
    let g = f.after(Pass::GradientSubtract, config, dt);
    assert(a.velocity.front.same_shape(textures.velocity.front));
    assert(d.velocity.front.same_shape(textures.velocity.front));
    assert(g.velocity.front.same_shape(textures.velocity.front));
}

/// The fields with other samples in the display field.
pub open spec fn showing(textures: TexturesView, shown: Seq<Sample>) -> TexturesView {
    TexturesView { velocity_out: textures.velocity_out.with_samples(shown), ..textures }
}

/// No pass reads the display field: a pass other than the display pass
/// carries it along untouched, and the display pass overwrites it.
pub proof fn lemma_pass_ignores_display(
    textures: TexturesView,
    shown: Seq<Sample>,
    pass: Pass,
    config: FluidConfig,
    dt: i32,
)
    ensures
        pass != Pass::VelocityOut ==> showing(textures, shown).after(pass, config, dt) == showing(
            textures.after(pass, config, dt),
            shown,
        ),
        pass == Pass::VelocityOut ==> showing(textures, shown).after(pass, config, dt)
            == textures.after(pass, config, dt),
{
}

/// The display field is written and never read: whatever it held before has
/// no influence on any field after the passes, the display field included.
pub proof fn lemma_display_is_never_read(
    textures: TexturesView,
    shown: Seq<Sample>,
    config: FluidConfig,
    dt: i32,
)
    ensures
        showing(textures, shown).after_all(config, dt) == textures.after_all(config, dt),
{
    let a = textures.after(Pass::VelocityAdvection, config, dt);
    lemma_pass_ignores_display(textures, shown, Pass::VelocityAdvection, config, dt);
    let b = a.after(Pass::DensityAdvection, config, dt);
    lemma_pass_ignores_display(a, shown, Pass::DensityAdvection, config, dt);
    let c = b.after(Pass::Curl, config, dt);
    lemma_pass_ignores_display(b, shown, Pass::Curl, config, dt);
    let d = c.after(Pass::Vorticity, config, dt);
    lemma_pass_ignores_display(c, shown, Pass::Vorticity, config, dt);
    let e = d.after(Pass::Divergence, config, dt);
    lemma_pass_ignores_display(d, shown, Pass::Divergence, config, dt);
    let f = e.after(Pass::Pressure, config, dt);
    lemma_pass_ignores_display(e, shown, Pass::Pressure, config, dt);
    let g = f.after(Pass::GradientSubtract, config, dt);
    lemma_pass_ignores_display(f, shown, Pass::GradientSubtract, config, dt);
    lemma_pass_ignores_display(g, shown, Pass::VelocityOut, config, dt);
}

} // verus!
