use gol::grid::Grid;
use gol::input::InputButton;
use gol::life::count_neighbours;

fn small_grid() -> Grid {
    // A 5-by-5 grid of 10-pixel cells whose corner sits at the origin.
    Grid::new(0, 0, 50, 50, 5, 5)
}

fn cells_of(grid: &Grid) -> Vec<Vec<bool>> {
    let mut rows = Vec::new();
    for cy in 0..grid.rows() {
        let mut row = Vec::new();
        for cx in 0..grid.columns() {
            row.push(grid.get(cx, cy));
        }
        rows.push(row);
    }
    rows
}

#[test]
fn new_grid_is_all_dead() {
    let grid = small_grid();
    assert_eq!(grid.columns(), 5);
    assert_eq!(grid.rows(), 5);
    assert_eq!(grid.hover(), None);
    for row in cells_of(&grid) {
        for cell in row {
            assert!(!cell);
        }
    }
}

#[test]
fn count_neighbours_empty_grid_is_zero() {
    let cells = vec![false; 25];
    assert_eq!(count_neighbours(&cells, 5, 5, 2, 2), 0);
}

#[test]
fn count_neighbours_full_grid_centre_is_eight() {
    let cells = vec![true; 9];
    // The centre cell itself is alive but not counted.
    assert_eq!(count_neighbours(&cells, 3, 3, 1, 1), 8);
}

#[test]
fn count_neighbours_full_grid_corner_is_three() {
    // Off-grid neighbours count as dead: a corner sees at most 3 cells.
    let cells = vec![true; 9];
    assert_eq!(count_neighbours(&cells, 3, 3, 0, 0), 3);
    assert_eq!(count_neighbours(&cells, 3, 3, 2, 0), 3);
    assert_eq!(count_neighbours(&cells, 3, 3, 0, 2), 3);
    assert_eq!(count_neighbours(&cells, 3, 3, 2, 2), 3);
}

#[test]
fn count_neighbours_full_grid_edge_is_five() {
    let cells = vec![true; 9];
    assert_eq!(count_neighbours(&cells, 3, 3, 1, 0), 5);
    assert_eq!(count_neighbours(&cells, 3, 3, 0, 1), 5);
}

#[test]
fn count_neighbours_single_diagonal_neighbour() {
    let mut cells = vec![false; 25];
    cells[0] = true; // cell (0, 0)
    assert_eq!(count_neighbours(&cells, 5, 5, 1, 1), 1);
    assert_eq!(count_neighbours(&cells, 5, 5, 2, 2), 0);
}

#[test]
fn step_of_all_dead_grid_stays_all_dead() {
    let mut grid = small_grid();
    grid.step();
    for row in cells_of(&grid) {
        for cell in row {
            assert!(!cell);
        }
    }
}

#[test]
fn lone_cell_dies_of_underpopulation() {
    let mut grid = small_grid();
    grid.set_cell(2, 2, true);
    assert!(grid.get(2, 2));
    grid.step();
    for row in cells_of(&grid) {
        for cell in row {
            assert!(!cell);
        }
    }
}

#[test]
fn block_still_life_is_a_fixed_point() {
    let mut grid = small_grid();
    grid.set_cell(1, 1, true);
    grid.set_cell(2, 1, true);
    grid.set_cell(1, 2, true);
    grid.set_cell(2, 2, true);
    let before = cells_of(&grid);
    grid.step();
    assert_eq!(cells_of(&grid), before);
    grid.step();
    assert_eq!(cells_of(&grid), before);
}

#[test]
fn blinker_oscillates_with_period_two() {
    let mut grid = small_grid();
    // A horizontal triple centred at (2, 2).
    grid.set_cell(1, 2, true);
    grid.set_cell(2, 2, true);
    grid.set_cell(3, 2, true);
    let horizontal = cells_of(&grid);
    grid.step();
    // Now the vertical triple centred at (2, 2), and nothing else.
    for cy in 0..5 {
        for cx in 0..5 {
            let expect = cx == 2 && (1..=3).contains(&cy);
            assert_eq!(grid.get(cx, cy), expect, "cell ({cx}, {cy})");
        }
    }
    grid.step();
    assert_eq!(cells_of(&grid), horizontal);
}

#[test]
fn birth_on_exactly_three_neighbours() {
    let mut grid = small_grid();
    // An L of three cells: (1,1), (2,1), (1,2). Cell (2,2) has exactly
    // three live neighbours and is born; the L itself survives as a block.
    grid.set_cell(1, 1, true);
    grid.set_cell(2, 1, true);
    grid.set_cell(1, 2, true);
    grid.step();
    assert!(grid.get(1, 1));
    assert!(grid.get(2, 1));
    assert!(grid.get(1, 2));
    assert!(grid.get(2, 2));
    for cy in 0..5 {
        for cx in 0..5 {
            if !(1..=2).contains(&cx) || !(1..=2).contains(&cy) {
                assert!(!grid.get(cx, cy));
            }
        }
    }
}

#[test]
fn edit_at_inside_paints_and_clears() {
    let mut grid = small_grid();
    // (15, 25) lies in cell (1, 2) of the 10-pixel lattice.
    grid.edit_at(15, 25, true);
    assert!(grid.get(1, 2));
    grid.edit_at(15, 25, false);
    assert!(!grid.get(1, 2));
}

#[test]
fn edit_at_outside_never_mutates_cells() {
    let mut grid = small_grid();
    grid.set_cell(0, 0, true);
    let before = cells_of(&grid);
    grid.edit_at(-3, 25, true);
    grid.edit_at(60, 25, true);
    grid.edit_at(25, 51, true);
    grid.edit_at(0, 0, true); // the boundary itself is outside (strict)
    assert_eq!(cells_of(&grid), before);
}

#[test]
fn update_hover_tracks_containment() {
    let mut grid = small_grid();
    grid.update_hover(15, 25);
    assert_eq!(grid.hover(), Some((1, 2)));
    grid.update_hover(49, 49);
    assert_eq!(grid.hover(), Some((4, 4)));
    grid.update_hover(60, 25);
    assert_eq!(grid.hover(), None);
}

#[test]
fn press_space_steps_one_generation() {
    let mut grid = small_grid();
    grid.set_cell(2, 2, true);
    grid.press(InputButton::KeySpace, 0, 0);
    for row in cells_of(&grid) {
        for cell in row {
            assert!(!cell);
        }
    }
}

#[test]
fn press_mouse_buttons_edit_under_pointer() {
    let mut grid = small_grid();
    grid.press(InputButton::MouseLeft, 15, 25);
    assert!(grid.get(1, 2));
    grid.press(InputButton::MouseRight, 15, 25);
    assert!(!grid.get(1, 2));
    grid.press(InputButton::Other, 15, 25);
    assert!(!grid.get(1, 2));
}

#[test]
fn randomize_keeps_shape_and_mixes_cells() {
    let mut grid = Grid::new(0, 0, 64, 64, 32, 32);
    grid.press(InputButton::KeyR, 0, 0);
    assert_eq!(grid.columns(), 32);
    assert_eq!(grid.rows(), 32);
    let mut live = 0usize;
    for row in cells_of(&grid) {
        for cell in row {
            if cell {
                live += 1;
            }
        }
    }
    // A fair per-cell coin leaves an all-dead or all-live 1024-cell grid
    // with probability 2^-1023: seeing either means the coin is broken.
    assert!(live > 0);
    assert!(live < 32 * 32);
}
