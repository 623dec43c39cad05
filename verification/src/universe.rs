//! The falling-sand automaton: a grid of cells that move and decay by simple
//! local rules.
//!
//! Row `0` is the bottom of the grid; "down" means towards smaller `y`. One
//! tick visits the cells in row-major order, bottom row first, and applies
//! the rule of the species found at each visited cell. A cell that has moved
//! is not visited again in the same tick.

use crate::field::{lemma_grid_size, lemma_index_split, lemma_row_major, MAX_DIM};
use crate::fixed::lemma_product_bound;
use vstd::prelude::*;

verus! {

/// The number of ticks a fire cell burns before it goes out.
pub const FIRE_LIFETIME: u8 = 100;

/// What a cell is made of.
#[derive(Clone, Copy, Debug, PartialEq, Eq, Hash, Structural)]
pub enum Species {
    Empty,
    Wall,
    Sand,
    Water,
    Fire,
    Lava,
    Ice,
    Gas,
    Oil,
    Acid,
    Wood,
    Stone,
    Seed,
    Plant,
    Fungus,
    Mite,
    Dust,
    Cloner,
    Rocket,
}

/// One cell of the automaton.
#[derive(Clone, Copy, Debug, PartialEq, Eq, Structural)]
pub struct Cell {
    pub species: Species,
    pub ra: u8,
    pub rb: u8,
    pub clock: u8,
}

/// The forcing that one cell exerts on the fluid.
#[derive(Clone, Copy, Debug, PartialEq, Eq, Structural)]
pub struct Wind {
    pub dx: u8,
    pub dy: u8,
    pub pressure: u8,
    pub density: u8,
}

impl Species {
    /// The number that stands for the species in a texture: its position in
    /// the list of species, starting at zero.
    pub open spec fn code_of(self) -> u8 {
        match self {
            Species::Empty => 0,
            Species::Wall => 1,
            Species::Sand => 2,
            Species::Water => 3,
            Species::Fire => 4,
            Species::Lava => 5,
            Species::Ice => 6,
            Species::Gas => 7,
            Species::Oil => 8,
            Species::Acid => 9,
            Species::Wood => 10,
            Species::Stone => 11,
            Species::Seed => 12,
            Species::Plant => 13,
            Species::Fungus => 14,
            Species::Mite => 15,
            Species::Dust => 16,
            Species::Cloner => 17,
            Species::Rocket => 18,
        }
    }

    /// The number that stands for the species in a texture.
    pub fn code(self) -> (c: u8)
        ensures
            c == self.code_of(),
    {
        match self {
            Species::Empty => 0,
            Species::Wall => 1,
            Species::Sand => 2,
            Species::Water => 3,
            Species::Fire => 4,
            Species::Lava => 5,
            Species::Ice => 6,
            Species::Gas => 7,
            Species::Oil => 8,
            Species::Acid => 9,
            Species::Wood => 10,
            Species::Stone => 11,
            Species::Seed => 12,
            Species::Plant => 13,
            Species::Fungus => 14,
            Species::Mite => 15,
            Species::Dust => 16,
            Species::Cloner => 17,
            Species::Rocket => 18,
        }
    }

    /// The species that `code` stands for, or `None` if it stands for none.
    pub fn from_code(code: u8) -> (s: Option<Species>)
        ensures
            s.is_some() <==> code <= 18,
            s.is_some() ==> s.unwrap().code_of() == code,
    {
        match code {
            0 => Some(Species::Empty),
            1 => Some(Species::Wall),
            2 => Some(Species::Sand),
            3 => Some(Species::Water),
            4 => Some(Species::Fire),
            5 => Some(Species::Lava),
            6 => Some(Species::Ice),
            7 => Some(Species::Gas),
            8 => Some(Species::Oil),
            9 => Some(Species::Acid),
            10 => Some(Species::Wood),
            11 => Some(Species::Stone),
            12 => Some(Species::Seed),
            13 => Some(Species::Plant),
            14 => Some(Species::Fungus),
            15 => Some(Species::Mite),
            16 => Some(Species::Dust),
            17 => Some(Species::Cloner),
            18 => Some(Species::Rocket),
            _ => None,
        }
    }
}

impl Cell {
    /// A freshly made cell of the given species.
    pub open spec fn fresh(species: Species) -> Cell {
        Cell { species, ra: 0, rb: 0, clock: 0 }
    }

    /// A fire cell one tick later: out once its clock has reached
    /// [`FIRE_LIFETIME`], otherwise one tick older.
    pub open spec fn burnt(self) -> Cell {
        if self.clock >= FIRE_LIFETIME {
            Cell::fresh(Species::Empty)
        } else {
            Cell { species: self.species, ra: self.ra, rb: self.rb, clock: (self.clock + 1) as u8 }
        }
    }

    /// A freshly made cell of the given species.
    pub fn new(species: Species) -> (c: Cell)
        ensures
            c == Cell::fresh(species),
    {
        Cell { species, ra: 0, rb: 0, clock: 0 }
    }
}

impl Wind {
    /// No forcing at all.
    pub open spec fn calm() -> Wind {
        Wind { dx: 0, dy: 0, pressure: 0, density: 0 }
    }

    /// Builds a wind sample from its four parts.
    pub fn new(dx: u8, dy: u8, pressure: u8, density: u8) -> (w: Wind)
        ensures
            w == (Wind { dx, dy, pressure, density }),
    {
        Wind { dx, dy, pressure, density }
    }
}

/// The square of the distance of `(x, y)` from `(cx, cy)` is at most the
/// square of `radius`.
pub open spec fn in_disc(x: int, y: int, cx: int, cy: int, radius: int) -> bool {
    (x - cx) * (x - cx) + (y - cy) * (y - cy) <= radius * radius
}

/// The mathematical content of a cell grid.
pub ghost struct GridView {
    pub width: int,
    pub height: int,
    pub cells: Seq<Cell>,
    pub winds: Seq<Wind>,
}

impl GridView {
    /// Both dimensions are within limits, and every grid point has a cell
    /// and a wind sample.
    pub open spec fn wf(self) -> bool {
        &&& 1 <= self.width <= MAX_DIM
        &&& 1 <= self.height <= MAX_DIM
        &&& self.cells.len() == self.width * self.height
        &&& self.winds.len() == self.width * self.height
    }

    /// Every cell is a fresh empty cell and the air is calm everywhere.
    pub open spec fn is_blank(self) -> bool {
        &&& forall|i: int|
            0 <= i < self.cells.len() ==> self.cells[i] == Cell::fresh(Species::Empty)
        &&& forall|i: int| 0 <= i < self.winds.len() ==> self.winds[i] == Wind::calm()
    }

    /// `(x, y)` names a grid point.
    pub open spec fn contains(self, x: int, y: int) -> bool {
        0 <= x < self.width && 0 <= y < self.height
    }

    /// The index at which the cell of grid point `(x, y)` is stored.
    pub open spec fn index_of(self, x: int, y: int) -> int {
        y * self.width + x
    }

    /// The cell at grid point `(x, y)`.
    pub open spec fn cell(self, x: int, y: int) -> Cell
        recommends
            self.contains(x, y),
    {
        self.cells[self.index_of(x, y)]
    }

    /// `(x, y)` is a grid point that holds an empty cell.
    pub open spec fn is_free(self, x: int, y: int) -> bool {
        self.contains(x, y) && self.cell(x, y).species == Species::Empty
    }

    /// The same grid holding other cells.
    pub open spec fn with_cells(self, cells: Seq<Cell>) -> GridView {
        GridView { width: self.width, height: self.height, cells, winds: self.winds }
    }

    /// The grid after the cells at indices `i` and `j` changed places.
    pub open spec fn exchanged(self, i: int, j: int) -> GridView {
        self.with_cells(self.cells.update(i, self.cells[j]).update(j, self.cells[i]))
    }

    /// The grid after a disc was painted: every cell within the disc is a
    /// fresh cell of `species`, every other cell is as before.
    pub open spec fn painted(self, cx: int, cy: int, radius: int, species: Species) -> GridView {
        self.with_cells(
            Seq::new(
                self.cells.len(),
                |i: int|
                    if in_disc(i % self.width, i / self.width, cx, cy, radius) {
                        Cell::fresh(species)
                    } else {
                        self.cells[i]
                    },
            ),
        )
    }

    /// Where the water at `(x, y)` flows: the first empty grid point among
    /// down, down-left, down-right, left and right.
    pub open spec fn water_target(self, x: int, y: int) -> Option<(int, int)> {
        if self.is_free(x, y - 1) {
            Some((x, y - 1))
        } else if self.is_free(x - 1, y - 1) {
            Some((x - 1, y - 1))
        } else if self.is_free(x + 1, y - 1) {
            Some((x + 1, y - 1))
        } else if self.is_free(x - 1, y) {
            Some((x - 1, y))
        } else if self.is_free(x + 1, y) {
            Some((x + 1, y))
        } else {
            None
        }
    }

    /// The grid after the rule of the cell stored at `index` was applied.
    ///
    /// Sand changes places with an empty or water cell directly below it.
    /// Water moves to its [`water_target`](Self::water_target), if it has
    /// one. Fire ages and finally goes out. Every other species rests.
    pub open spec fn stepped(self, index: int) -> GridView {
        let x = index % self.width;
        let y = index / self.width;
        let c = self.cells[index];
        match c.species {
            Species::Sand => {
                if y >= 1 && (self.cell(x, y - 1).species == Species::Empty || self.cell(
                    x,
                    y - 1,
                ).species == Species::Water) {
                    self.exchanged(index, self.index_of(x, y - 1))
                } else {
                    self
                }
            },
            Species::Water => {
                match self.water_target(x, y) {
                    Some((tx, ty)) => self.exchanged(index, self.index_of(tx, ty)),
                    None => self,
                }
            },
            Species::Fire => self.with_cells(self.cells.update(index, c.burnt())),
            _ => self,
        }
    }

    /// The cell stored at `index` is water that flows to the right, into the
    /// cell that would be visited next.
    pub open spec fn flows_right(self, index: int) -> bool {
        let x = index % self.width;
        let y = index / self.width;
        self.cells[index].species == Species::Water && self.water_target(x, y) == Some(
            (x + 1, y),
        )
    }

    /// The grid after the cells from `index` up to `end` were visited.
    pub open spec fn scanned(self, index: int, end: int) -> GridView
        decreases end + 1 - index,
    {
        if 0 <= index < end {
            if self.flows_right(index) {
                self.stepped(index).scanned(index + 2, end)
            } else {
                self.stepped(index).scanned(index + 1, end)
            }
        } else {
            self
        }
    }

    /// The grid one tick later.
    pub open spec fn ticked(self) -> GridView {
        self.scanned(0, self.cells.len() as int)
    }
}

/// A rectangular grid of cells, each with a wind sample of its own.
pub struct CellGrid {
    width: i32,
    height: i32,
    cells: Vec<Cell>,
    winds: Vec<Wind>,
}

impl View for CellGrid {
    type V = GridView;

    closed spec fn view(&self) -> GridView {
        GridView {
            width: self.width as int,
            height: self.height as int,
            cells: self.cells@,
            winds: self.winds@,
        }
    }
}

impl CellGrid {
    #[verifier::type_invariant]
    spec fn inv(self) -> bool {
        self@.wf()
    }

    /// A grid of empty cells in calm air, or `None` if a dimension is less
    /// than one or larger than [`MAX_DIM`].
    pub fn new(width: i32, height: i32) -> (out: Option<CellGrid>)
        ensures
            out.is_some() <==> 1 <= width <= MAX_DIM && 1 <= height <= MAX_DIM,
            out.is_some() ==> ({
                let g = out.unwrap()@;
                &&& g.wf()
                &&& g.width == width
                &&& g.height == height
                &&& g.is_blank()
            }),
    {
        if width < 1 || width > 32768 || height < 1 || height > 32768 {
            return None;
        }
        proof {
            lemma_grid_size(width as int, height as int);
        }
        let count: usize = (width as usize) * (height as usize);
        let empty = Cell { species: Species::Empty, ra: 0, rb: 0, clock: 0 };
        let calm = Wind { dx: 0, dy: 0, pressure: 0, density: 0 };
        let cells: Vec<Cell> = vec![empty; count];
        let winds: Vec<Wind> = vec![calm; count];
        Some(CellGrid { width, height, cells, winds })
    }

    /// Number of columns.
    pub fn width(&self) -> (w: i32)
        ensures
            w == self@.width,
            self@.wf(),
    {
        proof {
            use_type_invariant(self);
        }
        self.width
    }

    /// Number of rows.
    pub fn height(&self) -> (h: i32)
        ensures
            h == self@.height,
            self@.wf(),
    {
        proof {
            use_type_invariant(self);
        }
        self.height
    }

    /// The cells in row-major order, bottom row first.
    pub fn cells(&self) -> (c: &Vec<Cell>)
        ensures
            c@ == self@.cells,
            self@.wf(),
    {
        proof {
            use_type_invariant(self);
        }
        &self.cells
    }

    /// The wind samples in row-major order, bottom row first.
    pub fn winds(&self) -> (w: &Vec<Wind>)
        ensures
            w@ == self@.winds,
            self@.wf(),
    {
        proof {
            use_type_invariant(self);
        }
        &self.winds
    }

    /// The grid point whose cell is stored at `index`, or `None` if no cell
    /// is stored there.
    pub fn get_x_y(&self, index: i32) -> (point: Option<(i32, i32)>)
        ensures
            point == if 0 <= index < self@.cells.len() {
                Some((((index as int) % self@.width) as i32, ((index as int) / self@.width) as i32))
            } else {
                None
            },
    {
        proof {
            use_type_invariant(self);
        }
        if index < 0 || index as usize >= self.cells.len() {
            None
        } else {
            proof {
                lemma_index_split(index as int, self.width as int, self.height as int);
            }
            Some((index % self.width, index / self.width))
        }
    }

    /// The cell at grid point `(x, y)`, or `None` outside the grid.
    pub fn get(&self, x: usize, y: usize) -> (out: Option<Cell>)
        ensures
            out == if self@.contains(x as int, y as int) {
                Some(self@.cell(x as int, y as int))
            } else {
                None
            },
    {
        proof {
            use_type_invariant(self);
        }
        if x < self.width as usize && y < self.height as usize {
            proof {
                lemma_row_major(x as int, y as int, self.width as int, self.height as int);
                lemma_grid_size(self.width as int, self.height as int);
            }
            Some(self.cells[y * (self.width as usize) + x])
        } else {
            None
        }
    }

    /// Replaces the cell at grid point `(x, y)`. A point outside the grid is
    /// rejected and leaves the grid as it was.
    pub fn set(&mut self, x: usize, y: usize, cell: Cell) -> (written: bool)
        ensures
            written <==> old(self)@.contains(x as int, y as int),
            written ==> final(self)@ == old(self)@.with_cells(
                old(self)@.cells.update(old(self)@.index_of(x as int, y as int), cell),
            ),
            !written ==> final(self)@ == old(self)@,
    {
        proof {
            use_type_invariant(&*self);
        }
        if x < self.width as usize && y < self.height as usize {
            proof {
                lemma_row_major(x as int, y as int, self.width as int, self.height as int);
                lemma_grid_size(self.width as int, self.height as int);
            }
            let index: usize = y * (self.width as usize) + x;
            self.cells[index] = cell;
            true
        } else {
            false
        }
    }

    /// Replaces the wind sample at grid point `(x, y)`. A point outside the
    /// grid is rejected and leaves the grid as it was.
    pub fn set_wind(&mut self, x: usize, y: usize, wind: Wind) -> (written: bool)
        ensures
            written <==> old(self)@.contains(x as int, y as int),
            written ==> final(self)@ == (GridView {
                width: old(self)@.width,
                height: old(self)@.height,
                cells: old(self)@.cells,
                winds: old(self)@.winds.update(old(self)@.index_of(x as int, y as int), wind),
            }),
            !written ==> final(self)@ == old(self)@,
    {
        proof {
            use_type_invariant(&*self);
        }
        if x < self.width as usize && y < self.height as usize {
            proof {
                lemma_row_major(x as int, y as int, self.width as int, self.height as int);
                lemma_grid_size(self.width as int, self.height as int);
            }
            let index: usize = y * (self.width as usize) + x;
            self.winds[index] = wind;
            true
        } else {
            false
        }
    }

    /// Turns every cell whose distance from `(cx, cy)` is at most `radius`
    /// into a fresh cell of `species`.
    pub fn paint(&mut self, cx: i32, cy: i32, radius: i32, species: Species)
        ensures
            final(self)@ == old(self)@.painted(cx as int, cy as int, radius as int, species),
    {
        proof {
            use_type_invariant(&*self);
            lemma_grid_size(self.width as int, self.height as int);
            lemma_product_bound(radius as int, radius as int, 0x8000_0000, 0x8000_0000);
        }
        let count: usize = self.cells.len();
        let width: usize = self.width as usize;
        let limit: i128 = (radius as i128) * (radius as i128);
        let mut i: usize = 0;
        while i < count
            invariant
                i <= count <= 0x4000_0000,
                count == self.cells@.len(),
                count == old(self)@.cells.len(),
                width == self.width,
                1 <= width <= 32768,
                limit == radius * radius,
                self.width == old(self).width,
                self.height == old(self).height,
                self.winds == old(self).winds,
                self@.wf(),
                forall|j: int|
                    0 <= j < i ==> self.cells@[j] == old(self)@.painted(
                        cx as int,
                        cy as int,
                        radius as int,
                        species,
                    ).cells[j],
                forall|j: int| i <= j < count ==> self.cells@[j] == old(self)@.cells[j],
            decreases count - i,
        {
            let dx: i128 = ((i % width) as i128) - (cx as i128);
            let dy: i128 = ((i / width) as i128) - (cy as i128);
            proof {
                lemma_product_bound(dx as int, dx as int, 0x1_0000_0000, 0x1_0000_0000);
                lemma_product_bound(dy as int, dy as int, 0x1_0000_0000, 0x1_0000_0000);
            }
            if dx * dx + dy * dy <= limit {
                self.cells[i] = Cell { species, ra: 0, rb: 0, clock: 0 };
            }
            i += 1;
        }
        assert(self@.cells =~= old(self)@.painted(
            cx as int,
            cy as int,
            radius as int,
            species,
        ).cells);
    }

    /// The index at which the cell of grid point `(x, y)` is stored.
    fn index_at(&self, x: i64, y: i64) -> (index: usize)
        requires
            self@.contains(x as int, y as int),
        ensures
            index == self@.index_of(x as int, y as int),
            index < self@.cells.len(),
    {
        proof {
            use_type_invariant(self);
            lemma_row_major(x as int, y as int, self.width as int, self.height as int);
            lemma_grid_size(self.width as int, self.height as int);
        }
        (y as usize) * (self.width as usize) + (x as usize)
    }

    /// Whether `(x, y)` is a grid point that holds an empty cell.
    fn holds_empty(&self, x: i64, y: i64) -> (free: bool)
        ensures
            free == self@.is_free(x as int, y as int),
    {
        proof {
            use_type_invariant(self);
        }
        if 0 <= x && x < self.width as i64 && 0 <= y && y < self.height as i64 {
            let index = self.index_at(x, y);
            self.cells[index].species == Species::Empty
        } else {
            false
        }
    }

    /// Lets the cells stored at `i` and `j` change places.
    fn exchange(&mut self, i: usize, j: usize)
        requires
            i < old(self)@.cells.len(),
            j < old(self)@.cells.len(),
        ensures
            final(self)@ == old(self)@.exchanged(i as int, j as int),
            final(self)@.cells.len() == old(self)@.cells.len(),
    {
        proof {
            use_type_invariant(&*self);
        }
        let first = self.cells[i];
        let second = self.cells[j];
        self.cells[i] = second;
        self.cells[j] = first;
    }

    /// Moves the water stored at `index` to the empty grid point `(x, y)`.
    fn flow_to(&mut self, index: usize, x: i64, y: i64)
        requires
            index < old(self)@.cells.len(),
            old(self)@.is_free(x as int, y as int),
        ensures
            final(self)@ == old(self)@.exchanged(
                index as int,
                old(self)@.index_of(x as int, y as int),
            ),
            final(self)@.cells.len() == old(self)@.cells.len(),
    {
        let target = self.index_at(x, y);
        self.exchange(index, target);
    }

    /// Applies the rule of the cell stored at `index` and tells whether the
    /// cell moved into the place that would be visited next.
    fn step(&mut self, index: usize) -> (moved_right: bool)
        requires
            index < old(self)@.cells.len(),
        ensures
            final(self)@ == old(self)@.stepped(index as int),
            final(self)@.cells.len() == old(self)@.cells.len(),
            final(self)@.width == old(self)@.width,
            final(self)@.height == old(self)@.height,
            final(self)@.winds == old(self)@.winds,
            moved_right == old(self)@.flows_right(index as int),
    {
        proof {
            use_type_invariant(&*self);
            lemma_index_split(index as int, self.width as int, self.height as int);
            lemma_grid_size(self.width as int, self.height as int);
        }
        let width: usize = self.width as usize;
        let x: i64 = (index % width) as i64;
        let y: i64 = (index / width) as i64;
        let cell = self.cells[index];
        match cell.species {
            Species::Sand => {
                if y >= 1 {
                    let below = self.index_at(x, y - 1);
                    let under = self.cells[below].species;
                    if under == Species::Empty || under == Species::Water {
                        self.exchange(index, below);
                    }
                }
                false
            },
            Species::Water => {
                if self.holds_empty(x, y - 1) {
                    self.flow_to(index, x, y - 1);
                    false
                } else if self.holds_empty(x - 1, y - 1) {
                    self.flow_to(index, x - 1, y - 1);
                    false
                } else if self.holds_empty(x + 1, y - 1) {
                    self.flow_to(index, x + 1, y - 1);
                    false
                } else if self.holds_empty(x - 1, y) {
                    self.flow_to(index, x - 1, y);
                    false
                } else if self.holds_empty(x + 1, y) {
                    self.flow_to(index, x + 1, y);
                    true
                } else {
                    false
                }
            },
            Species::Fire => {
                let older = if cell.clock >= FIRE_LIFETIME {
                    Cell { species: Species::Empty, ra: 0, rb: 0, clock: 0 }
                } else {
                    Cell { species: cell.species, ra: cell.ra, rb: cell.rb, clock: cell.clock + 1 }
                };
                self.cells[index] = older;
                false
            },
            _ => false,
        }
    }

    /// Advances the automaton by one tick.
    pub fn tick(&mut self)
        ensures
            final(self)@ == old(self)@.ticked(),
            final(self)@.width == old(self)@.width,
            final(self)@.height == old(self)@.height,
            final(self)@.winds == old(self)@.winds,
            final(self)@.wf(),
    {
        proof {
            use_type_invariant(&*self);
            lemma_grid_size(self.width as int, self.height as int);
        }
        let count: usize = self.cells.len();
        let mut index: usize = 0;
        while index < count
            invariant
                count <= 0x4000_0000,
                index <= count + 1,
                self@.cells.len() == count,
                self@.width == old(self)@.width,
                self@.height == old(self)@.height,
                self@.winds == old(self)@.winds,
                self@.wf(),
                self@.scanned(index as int, count as int) == old(self)@.ticked(),
            decreases count + 1 - index,
        {
            let moved_right = self.step(index);
            proof {
                use_type_invariant(&*self);
            }
            index += if moved_right {
                2
            } else {
                1
            };
        }
    }
}

/// Lets the cells at the grid points `(x1, y1)` and `(x2, y2)` change
/// places. If either point lies outside the grid, nothing changes.
pub fn swap_cells(grid: &mut CellGrid, x1: usize, y1: usize, x2: usize, y2: usize) -> (swapped:
    bool)
    ensures
        swapped <==> old(grid)@.contains(x1 as int, y1 as int) && old(grid)@.contains(
            x2 as int,
            y2 as int,
        ),
        swapped ==> final(grid)@ == old(grid)@.exchanged(
            old(grid)@.index_of(x1 as int, y1 as int),
            old(grid)@.index_of(x2 as int, y2 as int),
        ),
        !swapped ==> final(grid)@ == old(grid)@,
{
    let width: usize = grid.width() as usize;
    let height: usize = grid.height() as usize;
    if x1 < width && y1 < height && x2 < width && y2 < height {
        let first = grid.index_at(x1 as i64, y1 as i64);
        let second = grid.index_at(x2 as i64, y2 as i64);
        grid.exchange(first, second);
        true
    } else {
        false
    }
}

} // verus!
