//! An initial velocity field: a slow whirl about the centre of the grid.

use crate::field::{Field, FieldView, Sample};
use crate::fixed::{fx_mul, lemma_product_bound, mul_fixed, ONE};
use crate::pass::{grid_map, lemma_index_on_grid};
use crate::vorticity::{normalise, unit_component};
use vstd::prelude::*;

verus! {

/// The speed of the whirl, one tenth of a cell per second, as a fixed-point
/// number.
pub const SWIRL_SPEED: i32 = 6554;

/// The velocity of the whirl at `(x, y)` on a grid of `width` by `height`
/// samples.
///
/// With `(dx, dy)` the offset of `(x, y)` from the centre of the grid, the
/// velocity is `(-dy, dx)` brought to the length [`SWIRL_SPEED`]. Nearer than
/// one cell to the centre the velocity is `(-dy, dx)` times [`SWIRL_SPEED`],
/// so that the whirl is at rest in its centre. Offsets are measured in half
/// cells, as the centre of a grid with an odd dimension lies between grid
/// points. The channel `b` is zero and the channel `a` is one.
pub open spec fn swirl_at(width: int, height: int, x: int, y: int) -> Sample {
    let dx = 2 * x - width;
    let dy = 2 * y - height;
    if dx * dx + dy * dy < 4 {
        Sample {
            r: fx_mul(-dy * (ONE / 2), SWIRL_SPEED as int) as i32,
            g: fx_mul(dx * (ONE / 2), SWIRL_SPEED as int) as i32,
            b: 0,
            a: ONE,
        }
    } else {
        Sample {
            r: fx_mul(-unit_component(dy, dx), SWIRL_SPEED as int) as i32,
            g: fx_mul(unit_component(dx, dy), SWIRL_SPEED as int) as i32,
            b: 0,
            a: ONE,
        }
    }
}

/// The samples of the whirl over the grid of `shape`.
pub open spec fn swirl_samples(shape: FieldView) -> Seq<Sample> {
    grid_map(shape, |x: int, y: int| swirl_at(shape.width as int, shape.height as int, x, y))
}

/// Computes the velocity of the whirl at `(x, y)`.
fn swirl_sample(width: usize, height: usize, x: usize, y: usize) -> (out: Sample)
    requires
        x < width <= 32768,
        y < height <= 32768,
    ensures
        out == swirl_at(width as int, height as int, x as int, y as int),
{
    let dx: i64 = 2 * (x as i64) - (width as i64);
    let dy: i64 = 2 * (y as i64) - (height as i64);
    proof {
        lemma_product_bound(dx as int, dx as int, 0x1_0000, 0x1_0000);
        lemma_product_bound(dy as int, dy as int, 0x1_0000, 0x1_0000);
    }
    if dx * dx + dy * dy < 4 {
        assert(-1 <= dx <= 1 && -1 <= dy <= 1) by (nonlinear_arith)
            requires
                dx * dx + dy * dy < 4,
        ;
        Sample {
            r: mul_fixed((-dy * 32768) as i32, SWIRL_SPEED) as i32,
            g: mul_fixed((dx * 32768) as i32, SWIRL_SPEED) as i32,
            b: 0,
            a: 65536,
        }
    } else {
        let ux: i32 = normalise(dx, dy);
        let uy: i32 = normalise(dy, dx);
        proof {
            lemma_product_bound(ux as int, SWIRL_SPEED as int, 0x1_0000, 0x1_0000);
            lemma_product_bound(uy as int, SWIRL_SPEED as int, 0x1_0000, 0x1_0000);
        }
        Sample {
            r: mul_fixed(-uy, SWIRL_SPEED) as i32,
            g: mul_fixed(ux, SWIRL_SPEED) as i32,
            b: 0,
            a: 65536,
        }
    }
}

/// Overwrites `velocity` with a slow whirl about the centre of its grid.
pub fn init_velocity_field(velocity: &mut Field)
    ensures
        final(velocity)@ == old(velocity)@.with_samples(swirl_samples(old(velocity)@)),
{
    let width: usize = velocity.width();
    let height: usize = velocity.height();
    let count: usize = velocity.len();
    let ghost before = velocity@;
    let mut i: usize = 0;
    while i < count
        invariant
            i <= count <= 0x4000_0000,
            count == before.samples.len(),
            width == before.width,
            height == before.height,
            before.wf(),
            velocity@.width == before.width,
            velocity@.height == before.height,
            velocity@.layout == before.layout,
            velocity@.samples.len() == count,
            forall|j: int|
                0 <= j < i ==> velocity@.samples[j] == swirl_at(
                    before.width as int,
                    before.height as int,
                    before.column(j),
                    before.row(j),
                ),
        decreases count - i,
    {
        proof {
            lemma_index_on_grid(before, i as int);
        }
        let sample = swirl_sample(width, height, i % width, i / width);
        velocity.write_row_major(i, sample);
        i += 1;
    }
    assert(velocity@.samples =~= swirl_samples(before));
}

} // verus!
