use fluid_sim::field::MAX_DIM;
use fluid_sim::universe::{swap_cells, Cell, CellGrid, Species, Wind, FIRE_LIFETIME};

const EMPTY: Cell = Cell { species: Species::Empty, ra: 0, rb: 0, clock: 0 };

fn cell(species: Species) -> Cell {
    Cell { species, ra: 0, rb: 0, clock: 0 }
}

/// Builds a grid from rows written top row first, one letter per cell.
fn grid_from(rows: &[&str]) -> CellGrid {
    let height = rows.len();
    let width = rows[0].len();
    let mut grid = CellGrid::new(width as i32, height as i32).unwrap();
    for (i, row) in rows.iter().enumerate() {
        let y = height - 1 - i;
        for (x, letter) in row.chars().enumerate() {
            let species = match letter {
                '.' => Species::Empty,
                '#' => Species::Wall,
                's' => Species::Sand,
                'w' => Species::Water,
                'f' => Species::Fire,
                'o' => Species::Stone,
                _ => panic!("unknown letter"),
            };
            assert!(grid.set(x, y, cell(species)));
        }
    }
    grid
}

/// Writes a grid as rows, top row first, one letter per cell.
fn picture(grid: &CellGrid) -> Vec<String> {
    let width = grid.width() as usize;
    let height = grid.height() as usize;
    let mut rows = Vec::new();
    for i in 0..height {
        let y = height - 1 - i;
        let mut row = String::new();
        for x in 0..width {
            row.push(match grid.get(x, y).unwrap().species {
                Species::Empty => '.',
                Species::Wall => '#',
                Species::Sand => 's',
                Species::Water => 'w',
                Species::Fire => 'f',
                Species::Stone => 'o',
                _ => '?',
            });
        }
        rows.push(row);
    }
    rows
}

fn after_tick(rows: &[&str]) -> Vec<String> {
    let mut grid = grid_from(rows);
    grid.tick();
    picture(&grid)
}

#[test]
fn a_new_grid_is_empty_and_calm() {
    let grid = CellGrid::new(4, 3).unwrap();
    assert_eq!(grid.width(), 4);
    assert_eq!(grid.height(), 3);
    assert_eq!(grid.cells().len(), 12);
    assert_eq!(grid.winds().len(), 12);
    assert!(grid.cells().iter().all(|c| *c == EMPTY));
    assert!(grid.winds().iter().all(|w| *w == Wind::new(0, 0, 0, 0)));
}

#[test]
fn a_grid_needs_positive_dimensions_within_limits() {
    assert!(CellGrid::new(0, 3).is_none());
    assert!(CellGrid::new(3, 0).is_none());
    assert!(CellGrid::new(-1, 3).is_none());
    assert!(CellGrid::new(3, -1).is_none());
    assert!(CellGrid::new(i32::MIN, i32::MIN).is_none());
    assert!(CellGrid::new(MAX_DIM as i32 + 1, 1).is_none());
    assert!(CellGrid::new(1, MAX_DIM as i32 + 1).is_none());
    assert!(CellGrid::new(i32::MAX, i32::MAX).is_none());
    assert!(CellGrid::new(1, 1).is_some());
    assert!(CellGrid::new(MAX_DIM as i32, 1).is_some());
}

#[test]
fn species_codes_follow_the_order_of_the_list() {
    let all = [
        Species::Empty,
        Species::Wall,
        Species::Sand,
        Species::Water,
        Species::Fire,
        Species::Lava,
        Species::Ice,
        Species::Gas,
        Species::Oil,
        Species::Acid,
        Species::Wood,
        Species::Stone,
        Species::Seed,
        Species::Plant,
        Species::Fungus,
        Species::Mite,
        Species::Dust,
        Species::Cloner,
        Species::Rocket,
    ];
    for (i, species) in all.iter().enumerate() {
        assert_eq!(species.code(), i as u8);
        assert_eq!(Species::from_code(i as u8), Some(*species));
    }
    assert_eq!(Species::from_code(19), None);
    assert_eq!(Species::from_code(255), None);
}

#[test]
fn cells_are_read_and_written_by_point() {
    let mut grid = CellGrid::new(4, 3).unwrap();
    let sand = Cell { species: Species::Sand, ra: 1, rb: 2, clock: 3 };
    assert!(grid.set(1, 2, sand));
    assert_eq!(grid.get(1, 2), Some(sand));
    assert_eq!(grid.cells()[9], sand);
    assert_eq!(grid.get(2, 1), Some(EMPTY));
    assert_eq!(grid.get(4, 0), None);
    assert_eq!(grid.get(0, 3), None);
    assert_eq!(grid.get(usize::MAX, usize::MAX), None);
    assert!(!grid.set(4, 0, sand));
    assert!(!grid.set(0, 3, sand));
    // a column past the end of a row must not reach into the next row
    assert!(!grid.set(5, 0, sand));
    assert_eq!(grid.cells().iter().filter(|c| **c == sand).count(), 1);
}

#[test]
fn winds_are_written_by_point() {
    let mut grid = CellGrid::new(4, 3).unwrap();
    let gust = Wind::new(1, 2, 3, 4);
    assert!(grid.set_wind(3, 1, gust));
    assert_eq!(grid.winds()[7], gust);
    assert!(!grid.set_wind(4, 1, gust));
    assert!(!grid.set_wind(3, 3, gust));
    assert_eq!(grid.winds().iter().filter(|w| **w == gust).count(), 1);
    assert!(grid.cells().iter().all(|c| *c == EMPTY));
}

#[test]
fn an_index_names_a_point() {
    let grid = CellGrid::new(4, 3).unwrap();
    assert_eq!(grid.get_x_y(0), Some((0, 0)));
    assert_eq!(grid.get_x_y(3), Some((3, 0)));
    assert_eq!(grid.get_x_y(4), Some((0, 1)));
    assert_eq!(grid.get_x_y(9), Some((1, 2)));
    assert_eq!(grid.get_x_y(11), Some((3, 2)));
    assert_eq!(grid.get_x_y(12), None);
    assert_eq!(grid.get_x_y(-1), None);
    assert_eq!(grid.get_x_y(i32::MIN), None);
    assert_eq!(grid.get_x_y(i32::MAX), None);
}

#[test]
fn two_cells_change_places() {
    let mut grid = grid_from(&["..w", "s.."]);
    assert!(swap_cells(&mut grid, 0, 0, 2, 1));
    assert_eq!(picture(&grid), vec!["..s", "w.."]);
    assert!(swap_cells(&mut grid, 1, 1, 1, 1));
    assert_eq!(picture(&grid), vec!["..s", "w.."]);
    assert!(!swap_cells(&mut grid, 0, 0, 3, 1));
    assert!(!swap_cells(&mut grid, 0, 0, 2, 2));
    assert!(!swap_cells(&mut grid, 3, 0, 0, 0));
    assert!(!swap_cells(&mut grid, 0, 2, 0, 0));
    assert_eq!(picture(&grid), vec!["..s", "w.."]);
}

#[test]
fn painting_fills_a_disc_and_nothing_else() {
    let mut grid = CellGrid::new(11, 9).unwrap();
    let marked = Cell { species: Species::Stone, ra: 5, rb: 6, clock: 7 };
    for y in 0..9 {
        for x in 0..11 {
            assert!(grid.set(x, y, marked));
        }
    }
    grid.paint(5, 4, 3, Species::Water);
    let mut painted = 0;
    for y in 0..9i32 {
        for x in 0..11i32 {
            let inside = (x - 5) * (x - 5) + (y - 4) * (y - 4) <= 9;
            let expected = if inside { cell(Species::Water) } else { marked };
            assert_eq!(grid.get(x as usize, y as usize), Some(expected));
            if inside {
                painted += 1;
            }
        }
    }
    assert_eq!(painted, 29);
    assert!(grid.winds().iter().all(|w| *w == Wind::new(0, 0, 0, 0)));
}

#[test]
fn painting_with_radius_zero_fills_one_cell() {
    let mut grid = CellGrid::new(5, 5).unwrap();
    grid.paint(2, 3, 0, Species::Fire);
    assert_eq!(picture(&grid), vec![".....", "..f..", ".....", ".....", "....."]);
}

#[test]
fn painting_across_the_edge_fills_what_lies_on_the_grid() {
    let mut grid = CellGrid::new(5, 4).unwrap();
    grid.paint(-1, 0, 2, Species::Sand);
    assert_eq!(picture(&grid), vec![".....", ".....", "s....", "ss..."]);
    grid.paint(4, 5, 2, Species::Wall);
    assert_eq!(picture(&grid), vec!["....#", ".....", "s....", "ss..."]);
}

#[test]
fn painting_far_away_fills_nothing() {
    let mut grid = CellGrid::new(5, 4).unwrap();
    grid.paint(100, 100, 5, Species::Sand);
    grid.paint(i32::MIN, i32::MAX, 5, Species::Sand);
    grid.paint(i32::MAX, i32::MIN, i32::MAX / 2, Species::Sand);
    assert!(grid.cells().iter().all(|c| *c == EMPTY));
}

#[test]
fn painting_with_a_huge_radius_fills_everything() {
    let mut grid = CellGrid::new(5, 4).unwrap();
    grid.paint(2, 2, i32::MIN, Species::Sand);
    assert!(grid.cells().iter().all(|c| *c == cell(Species::Sand)));
    grid.paint(-1000, 70000, i32::MAX, Species::Water);
    assert!(grid.cells().iter().all(|c| *c == cell(Species::Water)));
    // a centre in the far corner is farther away than the largest radius
    grid.paint(i32::MIN, i32::MIN, i32::MIN, Species::Sand);
    assert!(grid.cells().iter().all(|c| *c == cell(Species::Water)));
}

#[test]
fn the_sign_of_the_radius_does_not_matter() {
    let mut plus = CellGrid::new(9, 9).unwrap();
    let mut minus = CellGrid::new(9, 9).unwrap();
    plus.paint(4, 4, 2, Species::Wood);
    minus.paint(4, 4, -2, Species::Wood);
    assert_eq!(plus.cells(), minus.cells());
    assert_eq!(plus.cells().iter().filter(|c| c.species == Species::Wood).count(), 13);
}

#[test]
fn painting_resets_the_registers_of_a_cell() {
    let mut grid = CellGrid::new(3, 3).unwrap();
    assert!(grid.set(1, 1, Cell { species: Species::Fire, ra: 9, rb: 8, clock: 7 }));
    grid.paint(1, 1, 0, Species::Fire);
    assert_eq!(grid.get(1, 1), Some(cell(Species::Fire)));
}

#[test]
fn a_grain_of_sand_falls_one_row_per_tick() {
    let mut grid = CellGrid::new(7, 7).unwrap();
    let grain = Cell { species: Species::Sand, ra: 11, rb: 22, clock: 33 };
    assert!(grid.set(3, 5, grain));
    for fallen in 1..=5usize {
        grid.tick();
        assert_eq!(grid.get(3, 5 - fallen), Some(grain));
        assert_eq!(grid.cells().iter().filter(|c| **c != EMPTY).count(), 1);
    }
    for _ in 0..3 {
        grid.tick();
        assert_eq!(grid.get(3, 0), Some(grain));
        assert_eq!(grid.cells().iter().filter(|c| **c != EMPTY).count(), 1);
    }
}

#[test]
fn sand_in_the_bottom_row_never_moves() {
    let start = ["...w....", "ws.sw.ss"];
    let mut grid = grid_from(&start);
    for _ in 0..10 {
        grid.tick();
        for x in [1usize, 3, 6, 7] {
            assert_eq!(grid.get(x, 0), Some(cell(Species::Sand)));
        }
    }
}

#[test]
fn sand_sinks_through_water() {
    assert_eq!(after_tick(&["#s#", "#w#"]), vec!["#w#", "#s#"]);
}

#[test]
fn sand_rests_on_anything_but_empty_and_water() {
    assert_eq!(after_tick(&["ssss", "#sfo"]), vec!["ssss", "#sfo"]);
}

#[test]
fn sand_falls_as_a_column() {
    assert_eq!(after_tick(&["s", "s", ".", "."]), vec![".", "s", "s", "."]);
    assert_eq!(after_tick(&["s", ".", "s", "."]), vec![".", "s", ".", "s"]);
}

#[test]
fn water_falls_straight_down_first() {
    assert_eq!(after_tick(&[".w.", "..."]), vec!["...", ".w."]);
}

#[test]
fn water_flows_down_left_when_it_cannot_fall() {
    assert_eq!(after_tick(&[".w.", ".#."]), vec!["...", "w#."]);
}

#[test]
fn water_flows_down_right_when_down_and_down_left_are_taken() {
    assert_eq!(after_tick(&[".w.", "##."]), vec!["...", "##w"]);
}

#[test]
fn water_flows_left_when_nothing_below_is_free() {
    assert_eq!(after_tick(&[".w.", "###"]), vec!["w..", "###"]);
}

#[test]
fn water_flows_right_as_a_last_resort() {
    assert_eq!(after_tick(&["#w.", "###"]), vec!["#.w", "###"]);
}

#[test]
fn water_that_is_shut_in_stays() {
    assert_eq!(after_tick(&["#w#", "###"]), vec!["#w#", "###"]);
    assert_eq!(after_tick(&["sws", "sss"]), vec!["sws", "sss"]);
    assert_eq!(after_tick(&["w"]), vec!["w"]);
}

#[test]
fn water_does_not_flow_through_the_edges() {
    assert_eq!(after_tick(&["w.."]), vec![".w."]);
    assert_eq!(after_tick(&["..w"]), vec![".w."]);
    assert_eq!(after_tick(&["#w"]), vec!["#w"]);
}

#[test]
fn water_that_moved_right_is_not_moved_again() {
    // were the water visited again in its new place, it would find the place
    // it came from free and flow back to the left within the same tick
    let mut grid = grid_from(&["w....."]);
    grid.tick();
    assert_eq!(picture(&grid), vec![".w...."]);
    // on the next tick it does flow back, as left comes before right
    grid.tick();
    assert_eq!(picture(&grid), vec!["w....."]);
    // with its left side shut it cannot, and moves right by one cell only
    assert_eq!(after_tick(&["#w...."]), vec!["#.w..."]);
}

#[test]
fn the_cell_after_a_move_to_the_right_is_visited() {
    // the first water moves from column 1 to column 2; the scan goes on at
    // column 3, whose water finds column 2 taken and moves right
    assert_eq!(after_tick(&["#w.w."]), vec!["#.w.w"]);
}

#[test]
fn water_does_not_displace_anything() {
    assert_eq!(after_tick(&["w", "s"]), vec!["w", "s"]);
    assert_eq!(after_tick(&["w", "f"]), vec!["w", "f"]);
    assert_eq!(after_tick(&["w", "w"]), vec!["w", "w"]);
}

#[test]
fn water_falls_as_a_column() {
    assert_eq!(after_tick(&["w", "w", "."]), vec![".", "w", "w"]);
}

#[test]
fn the_bottom_row_is_visited_first() {
    // the lower water moves away to the left before the upper one is visited,
    // so the upper one can fall
    assert_eq!(after_tick(&["#w#", ".w#"]), vec!["#.#", "ww#"]);
}

#[test]
fn fire_ages_by_one_per_tick() {
    let mut grid = CellGrid::new(3, 3).unwrap();
    assert!(grid.set(1, 1, Cell { species: Species::Fire, ra: 4, rb: 5, clock: 0 }));
    assert!(grid.set(2, 2, Cell { species: Species::Fire, ra: 0, rb: 0, clock: 41 }));
    for tick in 1..=50u8 {
        grid.tick();
        assert_eq!(
            grid.get(1, 1),
            Some(Cell { species: Species::Fire, ra: 4, rb: 5, clock: tick })
        );
        assert_eq!(
            grid.get(2, 2),
            Some(Cell { species: Species::Fire, ra: 0, rb: 0, clock: 41 + tick })
        );
    }
}

#[test]
fn fire_goes_out_after_its_lifetime() {
    assert_eq!(FIRE_LIFETIME, 100);
    let mut grid = CellGrid::new(2, 1).unwrap();
    grid.paint(0, 0, 0, Species::Fire);
    assert!(grid.set(1, 0, Cell { species: Species::Fire, ra: 4, rb: 5, clock: 200 }));
    grid.tick();
    assert_eq!(grid.get(0, 0).unwrap().clock, 1);
    // a clock past the lifetime puts the fire out at once
    assert_eq!(grid.get(1, 0), Some(EMPTY));
    for _ in 1..100 {
        grid.tick();
    }
    assert_eq!(grid.get(0, 0), Some(Cell { species: Species::Fire, ra: 0, rb: 0, clock: 100 }));
    grid.tick();
    assert_eq!(grid.get(0, 0), Some(EMPTY));
    grid.tick();
    assert_eq!(grid.get(0, 0), Some(EMPTY));
}

#[test]
fn other_species_rest() {
    let mut grid = CellGrid::new(19, 2).unwrap();
    for code in 0..19u8 {
        let species = Species::from_code(code).unwrap();
        if species != Species::Sand && species != Species::Water && species != Species::Fire {
            assert!(grid.set(
                code as usize,
                1,
                Cell { species, ra: code, rb: 2 * code, clock: 3 * code }
            ));
        }
    }
    let before = grid.cells().clone();
    for _ in 0..5 {
        grid.tick();
    }
    assert_eq!(grid.cells(), &before);
}

#[test]
fn a_tick_leaves_the_winds_alone() {
    let mut grid = grid_from(&["sw.", "..f"]);
    assert!(grid.set_wind(0, 1, Wind::new(1, 2, 3, 4)));
    assert!(grid.set_wind(2, 0, Wind::new(5, 6, 7, 8)));
    let before = grid.winds().clone();
    grid.tick();
    assert_eq!(grid.winds(), &before);
}

/// A plain model of one tick, written without the library.
fn model_tick(width: usize, height: usize, cells: &mut Vec<Cell>) {
    let free = |cells: &Vec<Cell>, x: i64, y: i64| -> Option<usize> {
        if x < 0 || y < 0 || x >= width as i64 || y >= height as i64 {
            return None;
        }
        let index = y as usize * width + x as usize;
        if cells[index].species == Species::Empty {
            Some(index)
        } else {
            None
        }
    };
    let mut index = 0;
    while index < cells.len() {
        let x = (index % width) as i64;
        let y = (index / width) as i64;
        let mut step = 1;
        match cells[index].species {
            Species::Sand => {
                if y > 0 {
                    let below = index - width;
                    if matches!(cells[below].species, Species::Empty | Species::Water) {
                        cells.swap(index, below);
                    }
                }
            }
            Species::Water => {
                let around = [(x, y - 1), (x - 1, y - 1), (x + 1, y - 1), (x - 1, y), (x + 1, y)];
                for (n, (tx, ty)) in around.iter().enumerate() {
                    if let Some(target) = free(cells, *tx, *ty) {
                        cells.swap(index, target);
                        if n == 4 {
                            step = 2;
                        }
                        break;
                    }
                }
            }
            Species::Fire => {
                if cells[index].clock >= 100 {
                    cells[index] = EMPTY;
                } else {
                    cells[index].clock += 1;
                }
            }
            _ => {}
        }
        index += step;
    }
}

#[test]
fn water_and_fire_painted_side_by_side() {
    let mut grid = CellGrid::new(600, 600).unwrap();
    grid.paint(300, 50, 60, Species::Water);
    grid.paint(550, 50, 60, Species::Fire);
    let before = grid.cells().clone();
    let water_before = before.iter().filter(|c| c.species == Species::Water).count();
    let fire_before = before.iter().filter(|c| c.species == Species::Fire).count();
    assert!(water_before > 0);
    assert!(fire_before > 0);

    grid.tick();

    // every fire is where it was, one tick older
    for (i, was) in before.iter().enumerate() {
        if was.species == Species::Fire {
            assert_eq!(grid.cells()[i], Cell { species: Species::Fire, ra: 0, rb: 0, clock: 1 });
        }
    }
    assert_eq!(grid.cells().iter().filter(|c| c.species == Species::Fire).count(), fire_before);
    // water only moves: none is lost, none is made, and its clock stays
    assert_eq!(grid.cells().iter().filter(|c| c.species == Species::Water).count(), water_before);
    for c in grid.cells() {
        assert!(matches!(c.species, Species::Empty | Species::Water | Species::Fire));
        if c.species != Species::Fire {
            assert_eq!(c.clock, 0);
        }
    }
    // the water has spread along the bottom row, which it covered from
    // column 267 to column 333
    assert_eq!(before[266].species, Species::Empty);
    assert_eq!(before[267].species, Species::Water);
    assert_eq!(before[333].species, Species::Water);
    assert_eq!(before[334].species, Species::Empty);
    assert_eq!(grid.get(266, 0).unwrap().species, Species::Water);
    assert_eq!(grid.get(334, 0).unwrap().species, Species::Water);
    // the topmost water, at (300, 110), has flowed away
    assert_eq!(before[110 * 600 + 300].species, Species::Water);
    assert_eq!(before[111 * 600 + 300].species, Species::Empty);
    assert_eq!(grid.get(300, 110).unwrap().species, Species::Empty);
    // and the whole grid is what the rules say
    let mut model = before.clone();
    model_tick(600, 600, &mut model);
    assert_eq!(grid.cells(), &model);
}

#[test]
fn many_ticks_agree_with_the_model() {
    let mut grid = CellGrid::new(40, 30).unwrap();
    grid.paint(10, 20, 6, Species::Water);
    grid.paint(25, 22, 5, Species::Sand);
    grid.paint(20, 8, 4, Species::Wall);
    grid.paint(33, 5, 3, Species::Fire);
    grid.paint(5, 3, 2, Species::Water);
    let mut model = grid.cells().clone();
    for _ in 0..120 {
        grid.tick();
        model_tick(40, 30, &mut model);
        assert_eq!(grid.cells(), &model);
    }
    assert_eq!(grid.cells().iter().filter(|c| c.species == Species::Fire).count(), 0);
}
