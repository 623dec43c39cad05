//! How the automaton behaves over a whole tick: where sand ends up, how fire
//! ages, what painting leaves alone.

use crate::field::{lemma_index_split, lemma_row_major};
use crate::universe::{in_disc, Cell, GridView, Species, FIRE_LIFETIME};
use vstd::prelude::*;

verus! {

/// The species has no rule of its own: a cell of it is never the one that
/// acts.
pub open spec fn rests(species: Species) -> bool {
    species != Species::Sand && species != Species::Water && species != Species::Fire
}

/// After painting, a grid point within the disc holds a fresh cell of the
/// painted species, and a grid point outside the disc holds what it held
/// before. The winds are not touched.
pub proof fn lemma_painted_cell(
    grid: GridView,
    cx: int,
    cy: int,
    radius: int,
    species: Species,
    x: int,
    y: int,
)
    requires
        grid.wf(),
        grid.contains(x, y),
    ensures
        grid.painted(cx, cy, radius, species).wf(),
        grid.painted(cx, cy, radius, species).winds == grid.winds,
        in_disc(x, y, cx, cy, radius) ==> grid.painted(cx, cy, radius, species).cell(x, y)
            == Cell::fresh(species),
        !in_disc(x, y, cx, cy, radius) ==> grid.painted(cx, cy, radius, species).cell(x, y)
            == grid.cell(x, y),
{
    lemma_row_major(x, y, grid.width, grid.height);
}

/// One step keeps the grid well formed, and it leaves alone every cell that
/// is neither the one that acts nor empty nor water.
pub proof fn lemma_step_keeps_others(grid: GridView, index: int, other: int)
    requires
        grid.wf(),
        0 <= index < grid.cells.len(),
        0 <= other < grid.cells.len(),
        other != index,
        grid.cells[other].species != Species::Empty,
        grid.cells[other].species != Species::Water,
    ensures
        grid.stepped(index).wf(),
        grid.stepped(index).cells[other] == grid.cells[other],
{
    lemma_step_keeps_shape(grid, index);
    lemma_index_split(index, grid.width, grid.height);
    let x = index % grid.width;
    let y = index / grid.width;
    match grid.cells[index].species {
        Species::Sand => {
            if y >= 1 {
                lemma_row_major(x, y - 1, grid.width, grid.height);
            }
        },
        Species::Water => {
            match grid.water_target(x, y) {
                Some((tx, ty)) => {
                    lemma_row_major(tx, ty, grid.width, grid.height);
                },
                None => {},
            }
        },
        _ => {},
    }
}

/// One step keeps the grid well formed.
pub proof fn lemma_step_keeps_shape(grid: GridView, index: int)
    requires
        grid.wf(),
        0 <= index < grid.cells.len(),
    ensures
        grid.stepped(index).wf(),
        grid.stepped(index).width == grid.width,
        grid.stepped(index).height == grid.height,
        grid.stepped(index).winds == grid.winds,
        grid.stepped(index).cells.len() == grid.cells.len(),
{
    lemma_index_split(index, grid.width, grid.height);
    let x = index % grid.width;
    let y = index / grid.width;
    match grid.cells[index].species {
        Species::Sand => {
            if y >= 1 {
                lemma_row_major(x, y - 1, grid.width, grid.height);
                lemma_exchange_keeps_shape(grid, index, grid.index_of(x, y - 1));
            }
        },
        Species::Water => {
            match grid.water_target(x, y) {
                Some((tx, ty)) => {
                    lemma_row_major(tx, ty, grid.width, grid.height);
                    lemma_exchange_keeps_shape(grid, index, grid.index_of(tx, ty));
                },
                None => {},
            }
        },
        _ => {},
    }
}

/// An exchange of two cells keeps the number of cells.
pub proof fn lemma_exchange_keeps_shape(grid: GridView, i: int, j: int)
    requires
        0 <= i < grid.cells.len(),
        0 <= j < grid.cells.len(),
    ensures
        grid.exchanged(i, j).cells.len() == grid.cells.len(),
        grid.exchanged(i, j).width == grid.width,
        grid.exchanged(i, j).height == grid.height,
        grid.exchanged(i, j).winds == grid.winds,
{
}

/// Visiting cells that all rest changes nothing.
pub proof fn lemma_scan_of_resting_cells(grid: GridView, from: int, end: int)
    requires
        0 <= from,
        end <= grid.cells.len(),
        forall|k: int| from <= k < end ==> rests(#[trigger] grid.cells[k].species),
    ensures
        grid.scanned(from, end) == grid,
    decreases end - from,
{
    if from < end {
        assert(rests(grid.cells[from].species));
        assert(grid.stepped(from) == grid);
        assert(!grid.flows_right(from));
        lemma_scan_of_resting_cells(grid, from + 1, end);
    }
}

/// A scan may start after any run of cells that rest.
pub proof fn lemma_scan_skips_resting_cells(grid: GridView, from: int, to: int, end: int)
    requires
        0 <= from <= to <= end <= grid.cells.len(),
        forall|k: int| from <= k < to ==> rests(#[trigger] grid.cells[k].species),
    ensures
        grid.scanned(from, end) == grid.scanned(to, end),
    decreases to - from,
{
    if from < to {
        assert(rests(grid.cells[from].species));
        assert(grid.stepped(from) == grid);
        assert(!grid.flows_right(from));
        lemma_scan_skips_resting_cells(grid, from + 1, to, end);
    }
}

/// A single grain of sand with an empty cell below it, in a grid that is
/// empty otherwise, is one row further down after a tick, and nowhere else.
pub proof fn lemma_single_sand_falls_one_row(grid: GridView, x: int, y: int)
    requires
        grid.wf(),
        grid.contains(x, y),
        y >= 1,
        grid.cell(x, y).species == Species::Sand,
        forall|k: int|
            0 <= k < grid.cells.len() && k != grid.index_of(x, y) ==> (
            #[trigger] grid.cells[k]).species == Species::Empty,
    ensures
        grid.ticked() == grid.exchanged(grid.index_of(x, y), grid.index_of(x, y - 1)),
        grid.ticked().cell(x, y - 1) == grid.cell(x, y),
        grid.ticked().cell(x, y).species == Species::Empty,
        forall|k: int|
            0 <= k < grid.cells.len() && k != grid.index_of(x, y - 1) ==> (
            #[trigger] grid.ticked().cells[k]).species == Species::Empty,
{
    let count = grid.cells.len() as int;
    let here = grid.index_of(x, y);
    let below = grid.index_of(x, y - 1);
    lemma_row_major(x, y, grid.width, grid.height);
    lemma_row_major(x, y - 1, grid.width, grid.height);
    assert(below == here - grid.width) by (nonlinear_arith)
        requires
            here == y * grid.width + x,
            below == (y - 1) * grid.width + x,
    ;
    assert forall|k: int| 0 <= k < here implies rests(#[trigger] grid.cells[k].species) by {
        assert(grid.cells[k].species == Species::Empty);
    }
    lemma_scan_skips_resting_cells(grid, 0, here, count);
    let moved = grid.exchanged(here, below);
    assert(grid.cell(x, y - 1).species == Species::Empty);
    assert(grid.stepped(here) == moved);
    assert(!grid.flows_right(here));
    assert(grid.scanned(here, count) == moved.scanned(here + 1, count));
    assert forall|k: int| here + 1 <= k < count implies rests(
        #[trigger] moved.cells[k].species,
    ) by {
        assert(grid.cells[k].species == Species::Empty);
    }
    lemma_scan_of_resting_cells(moved, here + 1, count);
    assert forall|k: int| 0 <= k < grid.cells.len() && k != below implies (
    #[trigger] moved.cells[k]).species == Species::Empty by {
        if k != here {
            assert(grid.cells[k].species == Species::Empty);
        }
    }
}

/// A grain of sand in the bottom row stays where it is for the rest of a
/// scan, whatever the other cells hold.
pub proof fn lemma_scan_keeps_bottom_sand(grid: GridView, x: int, from: int)
    requires
        grid.wf(),
        0 <= x < grid.width,
        0 <= from,
        grid.cells[x].species == Species::Sand,
    ensures
        grid.scanned(from, grid.cells.len() as int).cells[x] == grid.cells[x],
    decreases grid.cells.len() + 1 - from,
{
    let count = grid.cells.len() as int;
    lemma_row_major(x, 0, grid.width, grid.height);
    if from < count {
        let next = grid.stepped(from);
        lemma_step_keeps_shape(grid, from);
        if from == x {
            lemma_index_split(from, grid.width, grid.height);
            assert(from / grid.width == 0);
            assert(next == grid);
        } else {
            lemma_step_keeps_others(grid, from, x);
        }
        if grid.flows_right(from) {
            lemma_scan_keeps_bottom_sand(next, x, from + 2);
        } else {
            lemma_scan_keeps_bottom_sand(next, x, from + 1);
        }
    }
}

/// A grain of sand in the bottom row never moves: after a tick it is the
/// very same cell at the very same place.
pub proof fn lemma_bottom_sand_never_moves(grid: GridView, x: int)
    requires
        grid.wf(),
        0 <= x < grid.width,
        grid.cell(x, 0).species == Species::Sand,
    ensures
        grid.ticked().cell(x, 0) == grid.cell(x, 0),
{
    lemma_scan_keeps_bottom_sand(grid, x, 0);
    lemma_scan_keeps_width(grid, 0);
}

/// A scan keeps the width of the grid.
pub proof fn lemma_scan_keeps_width(grid: GridView, from: int)
    requires
        grid.wf(),
        0 <= from,
    ensures
        grid.scanned(from, grid.cells.len() as int).wf(),
        grid.scanned(from, grid.cells.len() as int).width == grid.width,
        grid.scanned(from, grid.cells.len() as int).height == grid.height,
        grid.scanned(from, grid.cells.len() as int).winds == grid.winds,
    decreases grid.cells.len() + 1 - from,
{
    let count = grid.cells.len() as int;
    if from < count {
        lemma_step_keeps_shape(grid, from);
        if grid.flows_right(from) {
            lemma_scan_keeps_width(grid.stepped(from), from + 2);
        } else {
            lemma_scan_keeps_width(grid.stepped(from), from + 1);
        }
    }
}

/// A fire that has not yet burnt for [`FIRE_LIFETIME`] ticks stays where it
/// is for the rest of a scan. If the scan still visits it, its clock goes up
/// by one; if the scan is past it, the fire is as it was.
pub proof fn lemma_scan_ages_fire(grid: GridView, place: int, from: int)
    requires
        grid.wf(),
        0 <= place < grid.cells.len(),
        0 <= from,
        grid.cells[place].species == Species::Fire,
        grid.cells[place].clock < FIRE_LIFETIME,
    ensures
        from <= place ==> grid.scanned(from, grid.cells.len() as int).cells[place]
            == grid.cells[place].burnt(),
        from > place ==> grid.scanned(from, grid.cells.len() as int).cells[place]
            == grid.cells[place],
    decreases grid.cells.len() + 1 - from,
{
    let count = grid.cells.len() as int;
    if from < count {
        let next = grid.stepped(from);
        lemma_step_keeps_shape(grid, from);
        if from == place {
            assert(next.cells[place] == grid.cells[place].burnt());
            assert(!grid.flows_right(from));
            if grid.cells[place].clock + 1 < FIRE_LIFETIME {
                lemma_scan_ages_fire(next, place, from + 1);
            } else {
                lemma_scan_keeps_settled(next, place, from + 1);
            }
        } else {
            lemma_step_keeps_others(grid, from, place);
            if grid.flows_right(from) {
                lemma_right_is_next(grid, from);
                lemma_scan_ages_fire(next, place, from + 2);
            } else {
                lemma_scan_ages_fire(next, place, from + 1);
            }
        }
    }
}

/// A cell that is neither empty nor water stays as it is while a scan visits
/// only cells that are stored after it.
pub proof fn lemma_scan_keeps_settled(grid: GridView, place: int, from: int)
    requires
        grid.wf(),
        0 <= place < grid.cells.len(),
        place < from,
        grid.cells[place].species != Species::Empty,
        grid.cells[place].species != Species::Water,
    ensures
        grid.scanned(from, grid.cells.len() as int).cells[place] == grid.cells[place],
    decreases grid.cells.len() + 1 - from,
{
    let count = grid.cells.len() as int;
    if from < count {
        lemma_step_keeps_shape(grid, from);
        lemma_step_keeps_others(grid, from, place);
        if grid.flows_right(from) {
            lemma_scan_keeps_settled(grid.stepped(from), place, from + 2);
        } else {
            lemma_scan_keeps_settled(grid.stepped(from), place, from + 1);
        }
    }
}

/// The species gives way to falling sand.
pub open spec fn yields(species: Species) -> bool {
    species == Species::Empty || species == Species::Water
}

/// A cell that is empty or water is still empty or water after a step,
/// unless the step belongs to the cell directly above it.
pub proof fn lemma_step_keeps_yielding(grid: GridView, index: int, place: int)
    requires
        grid.wf(),
        0 <= index < grid.cells.len(),
        0 <= place < grid.cells.len(),
        index != place + grid.width,
        yields(grid.cells[place].species),
    ensures
        yields(grid.stepped(index).cells[place].species),
{
    lemma_index_split(index, grid.width, grid.height);
    let x = index % grid.width;
    let y = index / grid.width;
    match grid.cells[index].species {
        Species::Sand => {
            if y >= 1 {
                lemma_row_major(x, y - 1, grid.width, grid.height);
                assert(grid.index_of(x, y - 1) == index - grid.width) by (nonlinear_arith)
                    requires
                        index == y * grid.width + x,
                        grid.index_of(x, y - 1) == (y - 1) * grid.width + x,
                ;
            }
        },
        Species::Water => {
            match grid.water_target(x, y) {
                Some((tx, ty)) => {
                    lemma_row_major(tx, ty, grid.width, grid.height);
                },
                None => {},
            }
        },
        _ => {},
    }
}

/// A step that lets water flow to the right moves it into the cell stored
/// next.
pub proof fn lemma_right_is_next(grid: GridView, index: int)
    requires
        grid.wf(),
        0 <= index < grid.cells.len(),
        grid.flows_right(index),
    ensures
        index + 1 < grid.cells.len(),
        grid.cells[index + 1].species == Species::Empty,
{
    lemma_index_split(index, grid.width, grid.height);
    let x = index % grid.width;
    let y = index / grid.width;
    lemma_row_major(x + 1, y, grid.width, grid.height);
}

/// Sand with an empty or water cell below it is in that cell once the scan
/// has reached and passed it.
pub proof fn lemma_scan_moves_sand(grid: GridView, here: int, from: int)
    requires
        grid.wf(),
        0 <= from <= here < grid.cells.len(),
        grid.width <= here,
        grid.cells[here].species == Species::Sand,
        yields(grid.cells[here - grid.width].species),
    ensures
        grid.scanned(from, grid.cells.len() as int).cells[here - grid.width] == grid.cells[here],
    decreases grid.cells.len() + 1 - from,
{
    let count = grid.cells.len() as int;
    let below = here - grid.width;
    let next = grid.stepped(from);
    lemma_step_keeps_shape(grid, from);
    if from == here {
        lemma_index_split(here, grid.width, grid.height);
        let x = here % grid.width;
        let y = here / grid.width;
        assert(y >= 1) by (nonlinear_arith)
            requires
                here == y * grid.width + x,
                0 <= x < grid.width,
                grid.width <= here,
        ;
        lemma_row_major(x, y - 1, grid.width, grid.height);
        assert(grid.index_of(x, y - 1) == below) by (nonlinear_arith)
            requires
                here == y * grid.width + x,
                grid.index_of(x, y - 1) == (y - 1) * grid.width + x,
                below == here - grid.width,
        ;
        assert(next == grid.exchanged(here, below));
        assert(next.cells[below] == grid.cells[here]);
        assert(!grid.flows_right(here));
        lemma_scan_keeps_settled(next, below, here + 1);
    } else {
        lemma_step_keeps_others(grid, from, here);
        lemma_step_keeps_yielding(grid, from, below);
        if grid.flows_right(from) {
            lemma_right_is_next(grid, from);
            lemma_scan_moves_sand(next, here, from + 2);
        } else {
            lemma_scan_moves_sand(next, here, from + 1);
        }
    }
}

/// Sand with an empty or water cell below it falls by exactly one row in a
/// tick, whatever the other cells hold: after the tick the cell below holds
/// the very same grain.
pub proof fn lemma_sand_falls_one_row(grid: GridView, x: int, y: int)
    requires
        grid.wf(),
        grid.contains(x, y),
        y >= 1,
        grid.cell(x, y).species == Species::Sand,
        yields(grid.cell(x, y - 1).species),
    ensures
        grid.ticked().cell(x, y - 1) == grid.cell(x, y),
{
    lemma_row_major(x, y, grid.width, grid.height);
    lemma_row_major(x, y - 1, grid.width, grid.height);
    let here = grid.index_of(x, y);
    assert(grid.index_of(x, y - 1) == here - grid.width && grid.width <= here)
        by (nonlinear_arith)
        requires
            here == y * grid.width + x,
            grid.index_of(x, y - 1) == (y - 1) * grid.width + x,
            y >= 1,
            x >= 0,
            grid.width >= 1,
    ;
    lemma_scan_moves_sand(grid, here, 0);
    lemma_scan_keeps_width(grid, 0);
}

/// Every fire that has not yet burnt for [`FIRE_LIFETIME`] ticks is one tick
/// older after a tick, and still where it was.
pub proof fn lemma_tick_ages_fire(grid: GridView, x: int, y: int)
    requires
        grid.wf(),
        grid.contains(x, y),
        grid.cell(x, y).species == Species::Fire,
        grid.cell(x, y).clock < FIRE_LIFETIME,
    ensures
        grid.ticked().cell(x, y) == (Cell {
            clock: (grid.cell(x, y).clock + 1) as u8,
            ..grid.cell(x, y)
        }),
{
    lemma_row_major(x, y, grid.width, grid.height);
    lemma_scan_ages_fire(grid, grid.index_of(x, y), 0);
    lemma_scan_keeps_width(grid, 0);
}

} // verus!
