//! The cellular-automaton core: the mathematical model of a rectangular,
//! row-major boolean grid, the neighbour count under a clamped (non-wrapping)
//! 8-neighbourhood, the step rule, and the executable neighbour counter.

use vstd::prelude::*;

verus! {

use vstd::arithmetic::div_mod::lemma_fundamental_div_mod_converse;

/// Conway's transition rule for a single cell: a live cell survives with two
/// or three live neighbours, a dead cell becomes alive with exactly three.
pub open spec fn step_rule(alive: bool, neighbours: int) -> bool {
    if alive {
        neighbours == 2 || neighbours == 3
    } else {
        neighbours == 3
    }
}

pub open spec fn one_if(b: bool) -> int {
    if b {
        1
    } else {
        0
    }
}

/// Whether the cell at column `x`, row `y` of a row-major grid is alive.
/// A position outside `[0, columns) x [0, rows)` is dead: the boundary is
/// clamped, not wrapped.
pub open spec fn alive_at(cells: Seq<bool>, columns: int, rows: int, x: int, y: int) -> bool {
    &&& 0 <= x < columns
    &&& 0 <= y < rows
    &&& cells[y * columns + x]
}

/// The number of live cells among the eight neighbours of `(x, y)`; the
/// centre cell itself is not a term, and off-grid positions count as dead.
pub open spec fn neighbour_count(cells: Seq<bool>, columns: int, rows: int, x: int, y: int) -> int {
    one_if(alive_at(cells, columns, rows, x - 1, y - 1))
        + one_if(alive_at(cells, columns, rows, x, y - 1))
        + one_if(alive_at(cells, columns, rows, x + 1, y - 1))
        + one_if(alive_at(cells, columns, rows, x - 1, y))
        + one_if(alive_at(cells, columns, rows, x + 1, y))
        + one_if(alive_at(cells, columns, rows, x - 1, y + 1))
        + one_if(alive_at(cells, columns, rows, x, y + 1))
        + one_if(alive_at(cells, columns, rows, x + 1, y + 1))
}

/// One full generation: every cell of the result is the step rule applied to
/// the same cell of `cells`, evaluated entirely against the old grid.
pub open spec fn step_spec(cells: Seq<bool>, columns: int, rows: int) -> Seq<bool> {
    Seq::new(
        cells.len(),
        |i: int| step_rule(cells[i], neighbour_count(cells, columns, rows, i % columns, i / columns)),
    )
}

/// A row-major index never leaves the grid's backing storage.
pub proof fn lemma_grid_index(columns: int, rows: int, x: int, y: int)
    requires
        0 <= x < columns,
        0 <= y < rows,
    ensures
        0 <= y * columns + x < rows * columns,
{
    assert(y * columns + x < rows * columns) by (nonlinear_arith)
        requires
            0 <= x < columns,
            0 <= y < rows,
    ;
    assert(0 <= y * columns + x) by (nonlinear_arith)
        requires
            0 <= x,
            0 <= y,
            0 < columns,
    ;
}

/// A row-major index decomposes back into its column and row.
pub proof fn lemma_grid_coords(columns: int, x: int, y: int)
    requires
        0 <= x < columns,
        0 <= y,
    ensures
        (y * columns + x) % columns == x,
        (y * columns + x) / columns == y,
{
    lemma_fundamental_div_mod_converse(y * columns + x, columns, y, x);
}

/// Distinct in-range positions have distinct row-major indices.
pub proof fn lemma_grid_index_injective(columns: int, x1: int, y1: int, x2: int, y2: int)
    requires
        0 <= x1 < columns,
        0 <= y1,
        0 <= x2 < columns,
        0 <= y2,
        y1 * columns + x1 == y2 * columns + x2,
    ensures
        x1 == x2,
        y1 == y2,
{
    lemma_grid_coords(columns, x1, y1);
    lemma_grid_coords(columns, x2, y2);
}

/// `cells` holds exactly the live cells named by `live`: an in-range position
/// is alive if and only if the set contains it, and off-grid positions are
/// dead as always.
pub open spec fn exactly_live(
    cells: Seq<bool>,
    columns: int,
    rows: int,
    live: Set<(int, int)>,
) -> bool {
    forall|x: int, y: int|
        (#[trigger] alive_at(cells, columns, rows, x, y)) <==> (0 <= x < columns && 0 <= y < rows
            && live.contains((x, y)))
}

/// An index into the grid's storage decomposes into in-range coordinates.
pub proof fn lemma_grid_coords_of_index(columns: int, rows: int, i: int)
    requires
        0 < columns,
        0 < rows,
        0 <= i < rows * columns,
    ensures
        0 <= i % columns < columns,
        0 <= i / columns < rows,
        (i / columns) * columns + (i % columns) == i,
{
    vstd::arithmetic::div_mod::lemma_fundamental_div_mod(i, columns);
    vstd::arithmetic::div_mod::lemma_mod_bound(i, columns);
    vstd::arithmetic::div_mod::lemma_div_pos_is_pos(i, columns);
    vstd::arithmetic::mul::lemma_mul_is_commutative(columns, i / columns);
    if i / columns >= rows {
        vstd::arithmetic::mul::lemma_mul_inequality(rows, i / columns, columns);
        assert(false);
    }
}

/// The stepped grid, read at an in-range position, is the step rule applied
/// to that position of the old grid.
pub proof fn lemma_step_alive_at(cells: Seq<bool>, columns: int, rows: int, x: int, y: int)
    requires
        0 < columns,
        0 < rows,
        cells.len() == rows * columns,
        0 <= x < columns,
        0 <= y < rows,
    ensures
        alive_at(step_spec(cells, columns, rows), columns, rows, x, y) == step_rule(
            alive_at(cells, columns, rows, x, y),
            neighbour_count(cells, columns, rows, x, y),
        ),
{
    lemma_grid_index(columns, rows, x, y);
    lemma_grid_coords(columns, x, y);
}

/// Two grids of the same shape with the same live set are the same grid.
pub proof fn lemma_exactly_live_unique(
    a: Seq<bool>,
    b: Seq<bool>,
    columns: int,
    rows: int,
    live: Set<(int, int)>,
)
    requires
        0 < columns,
        0 < rows,
        a.len() == rows * columns,
        b.len() == rows * columns,
        exactly_live(a, columns, rows, live),
        exactly_live(b, columns, rows, live),
    ensures
        a == b,
{
    assert forall|i: int| 0 <= i < rows * columns implies a[i] == b[i] by {
        lemma_grid_coords_of_index(columns, rows, i);
        let x = i % columns;
        let y = i / columns;
        assert(alive_at(a, columns, rows, x, y) == a[i]);
        assert(alive_at(b, columns, rows, x, y) == b[i]);
    };
    assert(a =~= b);
}

/// The neighbour count is between 0 and 8 and never counts the centre cell:
/// rewriting the cell at `(x, y)` itself leaves its own count unchanged.
pub proof fn lemma_count_ignores_centre(
    cells: Seq<bool>,
    columns: int,
    rows: int,
    x: int,
    y: int,
    alive: bool,
)
    requires
        0 <= x < columns,
        0 <= y < rows,
        cells.len() == rows * columns,
    ensures
        0 <= neighbour_count(cells, columns, rows, x, y) <= 8,
        neighbour_count(cells.update(y * columns + x, alive), columns, rows, x, y)
            == neighbour_count(cells, columns, rows, x, y),
{
    let updated = cells.update(y * columns + x, alive);
    assert forall|xx: int, yy: int|
        0 <= xx < columns && 0 <= yy < rows && (xx != x || yy != y) implies alive_at(
        updated,
        columns,
        rows,
        xx,
        yy,
    ) == alive_at(cells, columns, rows, xx, yy) by {
        lemma_grid_index(columns, rows, xx, yy);
        lemma_grid_index(columns, rows, x, y);
        if yy * columns + xx == y * columns + x {
            lemma_grid_index_injective(columns, xx, yy, x, y);
        }
    };
}

/// Clamped boundaries: a corner cell has at most three in-range neighbours,
/// so its count never exceeds 3; any cell on an edge stays at or below 5.
pub proof fn lemma_boundary_counts(cells: Seq<bool>, columns: int, rows: int, x: int, y: int)
    requires
        0 <= x < columns,
        0 <= y < rows,
    ensures
        (x == 0 || x == columns - 1 || y == 0 || y == rows - 1) ==> neighbour_count(
            cells,
            columns,
            rows,
            x,
            y,
        ) <= 5,
        ((x == 0 || x == columns - 1) && (y == 0 || y == rows - 1)) ==> neighbour_count(
            cells,
            columns,
            rows,
            x,
            y,
        ) <= 3,
{
}

/// Stepping an all-dead grid yields an all-dead grid: the empty grid is a
/// fixed point of the rule.
pub proof fn lemma_step_all_dead(cells: Seq<bool>, columns: int, rows: int)
    requires
        0 < columns,
        0 < rows,
        cells.len() == rows * columns,
        exactly_live(cells, columns, rows, Set::empty()),
    ensures
        exactly_live(step_spec(cells, columns, rows), columns, rows, Set::empty()),
        step_spec(cells, columns, rows) == cells,
{
    let stepped = step_spec(cells, columns, rows);
    assert forall|x: int, y: int| #[trigger]
        alive_at(stepped, columns, rows, x, y) <==> (0 <= x < columns && 0 <= y < rows
            && Set::<(int, int)>::empty().contains((x, y))) by {
        if 0 <= x < columns && 0 <= y < rows {
            lemma_step_alive_at(cells, columns, rows, x, y);
        }
    };
    lemma_exactly_live_unique(stepped, cells, columns, rows, Set::empty());
}

/// Underpopulation: a single live cell with no live neighbours dies, and it
/// wakes nothing up, so one step leaves the whole grid dead.
pub proof fn lemma_step_lone_cell_dies(cells: Seq<bool>, columns: int, rows: int, lx: int, ly: int)
    requires
        0 < columns,
        0 < rows,
        cells.len() == rows * columns,
        0 <= lx < columns,
        0 <= ly < rows,
        exactly_live(cells, columns, rows, set![(lx, ly)]),
    ensures
        exactly_live(step_spec(cells, columns, rows), columns, rows, Set::empty()),
{
    let stepped = step_spec(cells, columns, rows);
    assert forall|x: int, y: int| #[trigger]
        alive_at(stepped, columns, rows, x, y) <==> (0 <= x < columns && 0 <= y < rows
            && Set::<(int, int)>::empty().contains((x, y))) by {
        if 0 <= x < columns && 0 <= y < rows {
            lemma_step_alive_at(cells, columns, rows, x, y);
            assert(neighbour_count(cells, columns, rows, x, y) <= 1);
        }
    };
}

/// Still life: a 2-by-2 block of live cells, alone on the grid, is unchanged
/// by a step. Every block cell keeps three live neighbours and no dead cell
/// reaches three.
pub proof fn lemma_step_block_fixed(cells: Seq<bool>, columns: int, rows: int, bx: int, by: int)
    requires
        0 < columns,
        0 < rows,
        cells.len() == rows * columns,
        0 <= bx,
        bx + 1 < columns,
        0 <= by,
        by + 1 < rows,
        exactly_live(cells, columns, rows, set![(bx, by), (bx + 1, by), (bx, by + 1), (bx + 1, by + 1)]),
    ensures
        step_spec(cells, columns, rows) == cells,
{
    let live = set![(bx, by), (bx + 1, by), (bx, by + 1), (bx + 1, by + 1)];
    let stepped = step_spec(cells, columns, rows);
    assert forall|x: int, y: int| #[trigger]
        alive_at(stepped, columns, rows, x, y) <==> (0 <= x < columns && 0 <= y < rows
            && live.contains((x, y))) by {
        if 0 <= x < columns && 0 <= y < rows {
            lemma_step_alive_at(cells, columns, rows, x, y);
        }
    };
    lemma_exactly_live_unique(stepped, cells, columns, rows, live);
}

/// Blinker, first half-period: a horizontal triple centred at `(cx, cy)`,
/// alone on an interior patch of the grid, steps to the vertical triple with
/// the same centre.
pub proof fn lemma_step_blinker_horizontal(
    cells: Seq<bool>,
    columns: int,
    rows: int,
    cx: int,
    cy: int,
)
    requires
        0 < columns,
        0 < rows,
        cells.len() == rows * columns,
        1 <= cx,
        cx + 1 < columns,
        1 <= cy,
        cy + 1 < rows,
        exactly_live(cells, columns, rows, set![(cx - 1, cy), (cx, cy), (cx + 1, cy)]),
    ensures
        exactly_live(
            step_spec(cells, columns, rows),
            columns,
            rows,
            set![(cx, cy - 1), (cx, cy), (cx, cy + 1)],
        ),
{
    let stepped = step_spec(cells, columns, rows);
    assert forall|x: int, y: int| #[trigger]
        alive_at(stepped, columns, rows, x, y) <==> (0 <= x < columns && 0 <= y < rows && set![
            (cx, cy - 1),
            (cx, cy),
            (cx, cy + 1),
        ].contains((x, y))) by {
        if 0 <= x < columns && 0 <= y < rows {
            lemma_step_alive_at(cells, columns, rows, x, y);
        }
    };
}

/// Blinker, second half-period: the vertical triple steps back to the
/// horizontal one.
pub proof fn lemma_step_blinker_vertical(
    cells: Seq<bool>,
    columns: int,
    rows: int,
    cx: int,
    cy: int,
)
    requires
        0 < columns,
        0 < rows,
        cells.len() == rows * columns,
        1 <= cx,
        cx + 1 < columns,
        1 <= cy,
        cy + 1 < rows,
        exactly_live(cells, columns, rows, set![(cx, cy - 1), (cx, cy), (cx, cy + 1)]),
    ensures
        exactly_live(
            step_spec(cells, columns, rows),
            columns,
            rows,
            set![(cx - 1, cy), (cx, cy), (cx + 1, cy)],
        ),
{
    let stepped = step_spec(cells, columns, rows);
    assert forall|x: int, y: int| #[trigger]
        alive_at(stepped, columns, rows, x, y) <==> (0 <= x < columns && 0 <= y < rows && set![
            (cx - 1, cy),
            (cx, cy),
            (cx + 1, cy),
        ].contains((x, y))) by {
        if 0 <= x < columns && 0 <= y < rows {
            lemma_step_alive_at(cells, columns, rows, x, y);
        }
    };
}

/// The blinker oscillates with period two: stepping the horizontal triple
/// twice restores the original grid exactly.
pub proof fn lemma_blinker_period_two(cells: Seq<bool>, columns: int, rows: int, cx: int, cy: int)
    requires
        0 < columns,
        0 < rows,
        cells.len() == rows * columns,
        1 <= cx,
        cx + 1 < columns,
        1 <= cy,
        cy + 1 < rows,
        exactly_live(cells, columns, rows, set![(cx - 1, cy), (cx, cy), (cx + 1, cy)]),
    ensures
        step_spec(step_spec(cells, columns, rows), columns, rows) == cells,
{
    let once = step_spec(cells, columns, rows);
    let twice = step_spec(once, columns, rows);
    lemma_step_blinker_horizontal(cells, columns, rows, cx, cy);
    lemma_step_blinker_vertical(once, columns, rows, cx, cy);
    lemma_exactly_live_unique(
        twice,
        cells,
        columns,
        rows,
        set![(cx - 1, cy), (cx, cy), (cx + 1, cy)],
    );
}

/// Counts the live cells among the eight neighbours of `(x, y)`.
pub fn count_neighbours(cells: &Vec<bool>, columns: usize, rows: usize, x: usize, y: usize) -> (n:
    u32)
    requires
        0 < columns,
        0 < rows,
        cells@.len() == rows * columns,
        x < columns,
        y < rows,
    ensures
        n == neighbour_count(cells@, columns as int, rows as int, x as int, y as int),
        n <= 8,
{
    let grid_len: usize = cells.len();
    let mut n: u32 = 0;
    if x > 0 && y > 0 {
        proof {
            lemma_grid_index(columns as int, rows as int, x - 1, y - 1);
        }
        if cells[(y - 1) * columns + (x - 1)] {
            n += 1;
        }
    }
    if y > 0 {
        proof {
            lemma_grid_index(columns as int, rows as int, x as int, y - 1);
        }
        if cells[(y - 1) * columns + x] {
            n += 1;
        }
    }
    if x + 1 < columns && y > 0 {
        proof {
            lemma_grid_index(columns as int, rows as int, x + 1, y - 1);
        }
        if cells[(y - 1) * columns + (x + 1)] {
            n += 1;
        }
    }
    if x > 0 {
        proof {
            lemma_grid_index(columns as int, rows as int, x - 1, y as int);
        }
        if cells[y * columns + (x - 1)] {
            n += 1;
        }
    }
    if x + 1 < columns {
        proof {
            lemma_grid_index(columns as int, rows as int, x + 1, y as int);
        }
        if cells[y * columns + (x + 1)] {
            n += 1;
        }
    }
    if x > 0 && y + 1 < rows {
        proof {
            lemma_grid_index(columns as int, rows as int, x - 1, y + 1);
        }
        if cells[(y + 1) * columns + (x - 1)] {
            n += 1;
        }
    }
    if y + 1 < rows {
        proof {
            lemma_grid_index(columns as int, rows as int, x as int, y + 1);
        }
        if cells[(y + 1) * columns + x] {
            n += 1;
        }
    }
    if x + 1 < columns && y + 1 < rows {
        proof {
            lemma_grid_index(columns as int, rows as int, x + 1, y + 1);
        }
        if cells[(y + 1) * columns + (x + 1)] {
            n += 1;
        }
    }
    n
}

} // verus!
