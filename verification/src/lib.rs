//! A two-dimensional incompressible fluid solver on fixed-point grids, coupled
//! to a falling-sand cellular automaton.
//!
//! The fluid lives in [`field::Field`]s of four-channel samples. Every channel
//! is a signed fixed-point number with sixteen fractional bits (see
//! [`fixed`]); eight-bit normalised data, such as an RGBA image, is decoded
//! on the way in and encoded on the way out. Quantities that feed back into
//! themselves are kept in a [`buffer::DoubleBuffer`].
//!
//! One tick of [`simulation::SimulationState`] advances the automaton
//! ([`universe`]), hands its state to the solver ([`textures`]) and runs the
//! passes of the solver in a fixed order: [`advection`], [`curl`],
//! [`vorticity`], [`divergence`], [`pressure`], [`gradient_subtract`] and
//! [`velocity_out`].
//!
//! Every pass is a function from fields to a field. Its contract names the
//! sample it writes at every grid point, and the lemmas proved beside it say
//! how it behaves on fields of a special kind: a fluid at rest, a uniform
//! flow, a rotation, a level pressure. What a whole tick does to sand and
//! fire is proved in [`behaviour`], and that a fluid at rest stays at rest
//! in [`rest`].

pub mod advection;
pub mod behaviour;
pub mod buffer;
pub mod clear;
pub mod curl;
pub mod divergence;
pub mod field;
pub mod fixed;
pub mod gradient_subtract;
pub mod pass;
pub mod pressure;
pub mod rest;
pub mod seed;
pub mod simulation;
pub mod swirl;
pub mod textures;
pub mod universe;
pub mod velocity_out;
pub mod vorticity;
