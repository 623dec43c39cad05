//! Handing the state of the automaton to the fluid solver as fields.
//!
//! Every byte of a cell or of a wind sample becomes one channel, decoded as
//! an eight-bit normalised value.

use crate::field::{Field, FieldView, Sample};
use crate::pass::PassError;
use crate::universe::{Cell, CellGrid, GridView, Wind};
use vstd::prelude::*;

verus! {

/// The sample that stands for a wind sample: `dx`, `dy`, `pressure` and
/// `density` in `r`, `g`, `b` and `a`.
pub open spec fn wind_sample(wind: Wind) -> Sample {
    Sample::decode(wind.dx, wind.dy, wind.pressure, wind.density)
}

/// The sample that stands for a cell: the code of its species, `ra`, `rb`
/// and `clock` in `r`, `g`, `b` and `a`.
pub open spec fn cell_sample(cell: Cell) -> Sample {
    Sample::decode(cell.species.code_of(), cell.ra, cell.rb, cell.clock)
}

/// The field covers the grid of the automaton.
pub open spec fn covers(field: FieldView, grid: GridView) -> bool {
    field.width == grid.width && field.height == grid.height
}

/// The samples that stand for the winds of a grid.
pub open spec fn burns_samples(grid: GridView) -> Seq<Sample> {
    Seq::new(grid.winds.len(), |i: int| wind_sample(grid.winds[i]))
}

/// The samples that stand for the cells of a grid.
pub open spec fn cells_samples(grid: GridView) -> Seq<Sample> {
    Seq::new(grid.cells.len(), |i: int| cell_sample(grid.cells[i]))
}

/// The samples of `texture` with the `r` channel replaced by the species
/// codes of a grid.
pub open spec fn species_samples(grid: GridView, texture: FieldView) -> Seq<Sample> {
    Seq::new(
        texture.samples.len(),
        |i: int|
            Sample {
                r: cell_sample(grid.cells[i]).r,
                g: texture.samples[i].g,
                b: texture.samples[i].b,
                a: texture.samples[i].a,
            },
    )
}

/// Writes the winds of `grid` into `burns` and its cells into `cells`.
/// Unless both fields cover the grid, neither is touched.
pub fn update_burns_and_cells_textures(
    grid: &CellGrid,
    burns: &mut Field,
    cells: &mut Field,
) -> (res: Result<(), PassError>)
    ensures
        res.is_ok() <==> covers(old(burns)@, grid@) && covers(old(cells)@, grid@),
        res.is_ok() ==> final(burns)@ == old(burns)@.with_samples(burns_samples(grid@)),
        res.is_ok() ==> final(cells)@ == old(cells)@.with_samples(cells_samples(grid@)),
        res.is_err() ==> res == Err::<(), PassError>(PassError::ShapeMismatch),
        res.is_err() ==> final(burns)@ == old(burns)@ && final(cells)@ == old(cells)@,
{
    let width: usize = grid.width() as usize;
    let height: usize = grid.height() as usize;
    if burns.width() != width || burns.height() != height || cells.width() != width
        || cells.height() != height {
        return Err(PassError::ShapeMismatch);
    }
    let count: usize = burns.len();
    let winds = grid.winds();
    let states = grid.cells();
    let ghost burns_before = burns@;
    let ghost cells_before = cells@;
    let mut i: usize = 0;
    while i < count
        invariant
            i <= count,
            count == grid@.cells.len(),
            count == grid@.winds.len(),
            winds@ == grid@.winds,
            states@ == grid@.cells,
            burns@.width == burns_before.width,
            burns@.height == burns_before.height,
            burns@.layout == burns_before.layout,
            burns@.samples.len() == count,
            cells@.width == cells_before.width,
            cells@.height == cells_before.height,
            cells@.layout == cells_before.layout,
            cells@.samples.len() == count,
            forall|j: int| 0 <= j < i ==> burns@.samples[j] == wind_sample(grid@.winds[j]),
            forall|j: int| 0 <= j < i ==> cells@.samples[j] == cell_sample(grid@.cells[j]),
        decreases count - i,
    {
        let wind = winds[i];
        let cell = states[i];
        burns.write_row_major(
            i,
            Sample::from_unorm8(wind.dx, wind.dy, wind.pressure, wind.density),
        );
        cells.write_row_major(
            i,
            Sample::from_unorm8(cell.species.code(), cell.ra, cell.rb, cell.clock),
        );
        i += 1;
    }
    assert(burns@.samples =~= burns_samples(grid@));
    assert(cells@.samples =~= cells_samples(grid@));
    Ok(())
}

/// Advances the automaton by one tick and writes the species code of every
/// cell into the `r` channel of `texture`. If the texture does not cover the
/// grid, the automaton still ticks and the texture is not touched.
pub fn update_texture_data(grid: &mut CellGrid, texture: &mut Field) -> (res: Result<(), PassError>)
    ensures
        final(grid)@ == old(grid)@.ticked(),
        res.is_ok() <==> covers(old(texture)@, old(grid)@),
        res.is_ok() ==> final(texture)@ == old(texture)@.with_samples(
            species_samples(final(grid)@, old(texture)@),
        ),
        res.is_err() ==> res == Err::<(), PassError>(PassError::ShapeMismatch) && final(texture)@
            == old(texture)@,
{
    let width: usize = grid.width() as usize;
    let height: usize = grid.height() as usize;
    grid.tick();
    if texture.width() != width || texture.height() != height {
        return Err(PassError::ShapeMismatch);
    }
    let count: usize = texture.len();
    let states = grid.cells();
    let ghost before = texture@;
    let mut i: usize = 0;
    while i < count
        invariant
            i <= count,
            count == grid@.cells.len(),
            states@ == grid@.cells,
            texture@.width == before.width,
            texture@.height == before.height,
            texture@.layout == before.layout,
            texture@.samples.len() == count,
            before.samples.len() == count,
            forall|j: int|
                0 <= j < i ==> texture@.samples[j] == species_samples(grid@, before)[j],
            forall|j: int| i <= j < count ==> texture@.samples[j] == before.samples[j],
        decreases count - i,
    {
        let cell = states[i];
        let kept = texture.read_row_major(i).unwrap();
        let code = Sample::from_unorm8(cell.species.code(), 0, 0, 0);
        texture.write_row_major(i, Sample { r: code.r, g: kept.g, b: kept.b, a: kept.a });
        i += 1;
    }
    assert(texture@.samples =~= species_samples(grid@, before));
    Ok(())
}

/// Calm air exerts no force: the samples that stand for calm winds are zero.
pub proof fn lemma_calm_winds_are_blank(grid: GridView, burns: FieldView)
    requires
        forall|i: int| 0 <= i < grid.winds.len() ==> grid.winds[i] == Wind::calm(),
    ensures
        burns.with_samples(burns_samples(grid)).is_blank(),
        burns.with_samples(burns_samples(grid)).is_still(),
{
    assert(wind_sample(Wind::calm()) == Sample::zero());
}

} // verus!
