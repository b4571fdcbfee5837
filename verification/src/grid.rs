//! The double-buffered cell grid: a fixed-shape boolean matrix with a
//! scratch buffer of the same shape, point-edits driven by screen
//! coordinates, a hover cell, and the generation step. A step computes the
//! whole next generation into the scratch buffer against the unchanged old
//! grid, then swaps the buffers, so it is never partially applied.

use vstd::prelude::*;

verus! {

use crate::input::InputButton;
use crate::life::{count_neighbours, exactly_live, lemma_grid_coords, lemma_grid_index, step_spec};
use crate::rng::random_bool;
use vstd::arithmetic::div_mod::{
    lemma_div_pos_is_pos,
    lemma_fundamental_div_mod,
    lemma_mod_bound,
};
use vstd::arithmetic::mul::{lemma_mul_inequality, lemma_mul_is_commutative};

/// The mathematical content of a grid: its screen rectangle, its shape, its
/// cells in row-major order, and the hovered cell if any.
pub ghost struct GridView {
    pub x: int,
    pub y: int,
    pub width: int,
    pub height: int,
    pub columns: int,
    pub rows: int,
    pub cells: Seq<bool>,
    pub hover: Option<(int, int)>,
}

impl GridView {
    pub open spec fn wf(self) -> bool {
        &&& 0 < self.columns
        &&& 0 < self.rows
        &&& self.columns <= self.width
        &&& self.rows <= self.height
        &&& self.width % self.columns == 0
        &&& self.height % self.rows == 0
        &&& self.cells.len() == self.rows * self.columns
        &&& match self.hover {
            Some(p) => 0 <= p.0 < self.columns && 0 <= p.1 < self.rows,
            None => true,
        }
    }

    /// The screen width of one cell; the grid width divides evenly.
    pub open spec fn cell_width(self) -> int {
        self.width / self.columns
    }

    /// The screen height of one cell; the grid height divides evenly.
    pub open spec fn cell_height(self) -> int {
        self.height / self.rows
    }

    /// Strict containment of a screen position in the grid's rectangle.
    pub open spec fn contains(self, px: int, py: int) -> bool {
        &&& px > self.x
        &&& px < self.x + self.width
        &&& py > self.y
        &&& py < self.y + self.height
    }

    /// The cell under a screen position that lies within the rectangle.
    pub open spec fn cell_coord(self, px: int, py: int) -> (int, int) {
        ((px - self.x) / self.cell_width(), (py - self.y) / self.cell_height())
    }

    /// The row-major storage index of a cell.
    pub open spec fn cell_index(self, cx: int, cy: int) -> int {
        cy * self.columns + cx
    }

    /// Whether the cell at `(cx, cy)` is alive.
    pub open spec fn cell(self, cx: int, cy: int) -> bool {
        self.cells[self.cell_index(cx, cy)]
    }

    /// The cells after an edit aimed at screen position `(px, py)`: the
    /// targeted cell is overwritten when the position lies inside the grid's
    /// rectangle, and nothing changes when it lies outside.
    pub open spec fn edited(self, px: int, py: int, alive: bool) -> Seq<bool> {
        if self.contains(px, py) {
            self.cells.update(
                self.cell_index(self.cell_coord(px, py).0, self.cell_coord(px, py).1),
                alive,
            )
        } else {
            self.cells
        }
    }
}

/// Placement and shape agree between two grid views; only cells and hover
/// may differ.
pub open spec fn same_frame(a: GridView, b: GridView) -> bool {
    &&& a.x == b.x
    &&& a.y == b.y
    &&& a.width == b.width
    &&& a.height == b.height
    &&& a.columns == b.columns
    &&& a.rows == b.rows
}

pub struct Grid {
    x: u32,
    y: u32,
    width: u32,
    height: u32,
    columns: usize,
    rows: usize,
    cells: Vec<bool>,
    scratch: Vec<bool>,
    hover: Option<(usize, usize)>,
}

impl View for Grid {
    type V = GridView;

    closed spec fn view(&self) -> GridView {
        GridView {
            x: self.x as int,
            y: self.y as int,
            width: self.width as int,
            height: self.height as int,
            columns: self.columns as int,
            rows: self.rows as int,
            cells: self.cells@,
            hover: match self.hover {
                Some(p) => Some((p.0 as int, p.1 as int)),
                None => None,
            },
        }
    }
}

impl Grid {
    /// Both buffers hold exactly one cell per grid position; stated over the
    /// vectors' own lengths, so the cell count also fits the machine.
    pub closed spec fn bufs_wf(self) -> bool {
        &&& self.cells.len() == self@.rows * self@.columns
        &&& self.scratch.len() == self@.rows * self@.columns
    }

    pub open spec fn wf(self) -> bool {
        &&& self@.wf()
        &&& self.bufs_wf()
    }

    /// A fresh grid: every cell dead, nothing hovered.
    pub fn new(x: u32, y: u32, width: u32, height: u32, columns: usize, rows: usize) -> (r: Grid)
        requires
            0 < columns,
            0 < rows,
            columns as int <= width as int,
            rows as int <= height as int,
            width as int % columns as int == 0,
            height as int % rows as int == 0,
            rows * columns <= usize::MAX,
        ensures
            r.wf(),
            r@.x == x as int,
            r@.y == y as int,
            r@.width == width as int,
            r@.height == height as int,
            r@.columns == columns as int,
            r@.rows == rows as int,
            r@.hover is None,
            r@.cells.len() == rows * columns,
            forall|i: int| 0 <= i < rows * columns ==> !(#[trigger] r@.cells[i]),
            exactly_live(r@.cells, columns as int, rows as int, Set::empty()),
    {
        let n: usize = rows * columns;
        let cells = vec![false; n];
        let scratch = vec![false; n];
        let r = Grid { x, y, width, height, columns, rows, cells, scratch, hover: None };
        proof {
            assert forall|i: int| 0 <= i < n as int implies !r@.cells[i] by {}
            assert forall|cx: int, cy: int| #[trigger]
                crate::life::alive_at(r@.cells, columns as int, rows as int, cx, cy) <==> (0 <= cx
                < columns as int && 0 <= cy < rows as int && Set::<(int, int)>::empty().contains(
                (cx, cy),
            )) by {
                if 0 <= cx < columns as int && 0 <= cy < rows as int {
                    lemma_grid_index(columns as int, rows as int, cx, cy);
                }
            }
        }
        r
    }

    pub fn columns(&self) -> (r: usize)
        ensures
            r as int == self@.columns,
    {
        self.columns
    }

    pub fn rows(&self) -> (r: usize)
        ensures
            r as int == self@.rows,
    {
        self.rows
    }

    pub fn x(&self) -> (r: u32)
        ensures
            r as int == self@.x,
    {
        self.x
    }

    pub fn y(&self) -> (r: u32)
        ensures
            r as int == self@.y,
    {
        self.y
    }

    pub fn width(&self) -> (r: u32)
        ensures
            r as int == self@.width,
    {
        self.width
    }

    pub fn height(&self) -> (r: u32)
        ensures
            r as int == self@.height,
    {
        self.height
    }

    /// Reads one cell.
    pub fn get(&self, cx: usize, cy: usize) -> (r: bool)
        requires
            self.wf(),
            (cx as int) < self@.columns,
            (cy as int) < self@.rows,
        ensures
            r == self@.cell(cx as int, cy as int),
    {
        proof {
            lemma_grid_index(self@.columns, self@.rows, cx as int, cy as int);
        }
        self.cells[cy * self.columns + cx]
    }

    /// The hovered cell, if the pointer was last seen over the grid.
    pub fn hover(&self) -> (r: Option<(usize, usize)>)
        ensures
            r is None <==> self@.hover is None,
            r matches Some(p) ==> self@.hover == Some((p.0 as int, p.1 as int)),
    {
        self.hover
    }

    /// Overwrites one cell, immediately and unconditionally; the callers
    /// filter raw screen coordinates, so the coordinates here are always in
    /// range.
    pub fn set_cell(&mut self, cx: usize, cy: usize, alive: bool)
        requires
            old(self).wf(),
            (cx as int) < old(self)@.columns,
            (cy as int) < old(self)@.rows,
        ensures
            final(self).wf(),
            same_frame(old(self)@, final(self)@),
            final(self)@.hover == old(self)@.hover,
            final(self)@.cells == old(self)@.cells.update(
                old(self)@.cell_index(cx as int, cy as int),
                alive,
            ),
    {
        proof {
            lemma_grid_index(self@.columns, self@.rows, cx as int, cy as int);
        }
        let i: usize = cy * self.columns + cx;
        self.cells[i] = alive;
    }

    /// Re-derives the hovered cell from a pointer position: the cell under
    /// the pointer while it is inside the grid's rectangle, nothing
    /// otherwise.
    pub fn update_hover(&mut self, px: i64, py: i64)
        requires
            old(self).wf(),
        ensures
            final(self).wf(),
            same_frame(old(self)@, final(self)@),
            final(self)@.cells == old(self)@.cells,
            old(self)@.contains(px as int, py as int) ==> final(self)@.hover == Some(
                old(self)@.cell_coord(px as int, py as int),
            ),
            !old(self)@.contains(px as int, py as int) ==> final(self)@.hover is None,
    {
        let inside = px > self.x as i64 && px < self.x as i64 + self.width as i64 && py
            > self.y as i64 && py < self.y as i64 + self.height as i64;
        if inside {
            let (cx, cy) = self.cell_under(px, py);
            self.hover = Some((cx, cy));
        } else {
            self.hover = None;
        }
    }

    /// The cell under a screen position inside the grid's rectangle.
    fn cell_under(&self, px: i64, py: i64) -> (r: (usize, usize))
        requires
            self.wf(),
            self@.contains(px as int, py as int),
        ensures
            (r.0 as int, r.1 as int) == self@.cell_coord(px as int, py as int),
            (r.0 as int) < self@.columns,
            (r.1 as int) < self@.rows,
    {
        let cell_w: usize = self.width as usize / self.columns;
        let cell_h: usize = self.height as usize / self.rows;
        proof {
            lemma_exact_division(self.width as int, self.columns as int);
            lemma_exact_division(self.height as int, self.rows as int);
        }
        let ox: usize = (px - self.x as i64) as usize;
        let oy: usize = (py - self.y as i64) as usize;
        proof {
            lemma_div_below(self.width as int, self.columns as int, cell_w as int, ox as int);
            lemma_div_below(self.height as int, self.rows as int, cell_h as int, oy as int);
        }
        (ox / cell_w, oy / cell_h)
    }

    /// An edit aimed at a screen position: overwrites the cell under the
    /// pointer when the position lies inside the grid's rectangle; a
    /// position outside never mutates the cells.
    pub fn edit_at(&mut self, px: i64, py: i64, alive: bool)
        requires
            old(self).wf(),
        ensures
            final(self).wf(),
            same_frame(old(self)@, final(self)@),
            final(self)@.hover == old(self)@.hover,
            final(self)@.cells == old(self)@.edited(px as int, py as int, alive),
            !old(self)@.contains(px as int, py as int) ==> final(self)@.cells == old(self)@.cells,
    {
        let inside = px > self.x as i64 && px < self.x as i64 + self.width as i64 && py
            > self.y as i64 && py < self.y as i64 + self.height as i64;
        if inside {
            let (cx, cy) = self.cell_under(px, py);
            self.set_cell(cx, cy, alive);
        }
    }

    /// One generation: every cell of the next grid is the step rule applied
    /// to the old grid, computed in full into the scratch buffer and then
    /// swapped in atomically.
    #[verifier::loop_isolation(false)]
    pub fn step(&mut self)
        requires
            old(self).wf(),
        ensures
            final(self).wf(),
            same_frame(old(self)@, final(self)@),
            final(self)@.hover == old(self)@.hover,
            final(self)@.cells == step_spec(old(self)@.cells, old(self)@.columns, old(self)@.rows),
    {
        let columns = self.columns;
        let rows = self.rows;
        let mut cy: usize = 0;
        while cy < rows
            invariant
                cy <= rows,
                self@ == old(self)@,
                self.wf(),
                forall|i: int|
                    0 <= i < cy as int * columns as int ==> self.scratch@[i] == step_spec(
                        old(self)@.cells,
                        old(self)@.columns,
                        old(self)@.rows,
                    )[i],
            decreases rows - cy,
        {
            let mut cx: usize = 0;
            while cx < columns
                invariant
                    cx <= columns,
                    cy < rows,
                    self@ == old(self)@,
                    self.wf(),
                    forall|i: int|
                        0 <= i < cy as int * columns as int + cx as int ==> self.scratch@[i]
                            == step_spec(
                            old(self)@.cells,
                            old(self)@.columns,
                            old(self)@.rows,
                        )[i],
                decreases columns - cx,
            {
                let n = count_neighbours(&self.cells, columns, rows, cx, cy);
                proof {
                    lemma_grid_index(columns as int, rows as int, cx as int, cy as int);
                    lemma_grid_coords(columns as int, cx as int, cy as int);
                }
                let i: usize = cy * columns + cx;
                let cur = self.cells[i];
                let next = if cur {
                    n == 2 || n == 3
                } else {
                    n == 3
                };
                self.scratch[i] = next;
                cx += 1;
            }
            proof {
                assert((cy as int + 1) * columns as int == cy as int * columns as int
                    + columns as int) by (nonlinear_arith);
            }
            cy += 1;
        }
        proof {
            assert(self.scratch@ =~= step_spec(
                old(self)@.cells,
                old(self)@.columns,
                old(self)@.rows,
            ));
        }
        core::mem::swap(&mut self.cells, &mut self.scratch);
    }

    /// Sets every cell to an independent random boolean. The shape, the
    /// placement and the hover cell are untouched; nothing is promised of
    /// the cells themselves.
    pub fn randomize(&mut self)
        requires
            old(self).wf(),
        ensures
            final(self).wf(),
            same_frame(old(self)@, final(self)@),
            final(self)@.hover == old(self)@.hover,
            final(self)@.cells.len() == old(self)@.cells.len(),
    {
        let len = self.cells.len();
        let mut i: usize = 0;
        while i < len
            invariant
                i <= len,
                old(self).wf(),
                self@.cells.len() == old(self)@.cells.len(),
                len == self@.cells.len(),
                same_frame(old(self)@, self@),
                self@.hover == old(self)@.hover,
                self.scratch@.len() == old(self).scratch@.len(),
            decreases len - i,
        {
            let alive = random_bool();
            self.cells[i] = alive;
            i += 1;
        }
    }

    /// The grid's part of a button-press event, as the original event loop
    /// dispatches it: the left mouse button paints the cell under the
    /// pointer alive, the right one clears it, the space key steps one
    /// generation, the R key randomizes, and anything else is ignored.
    pub fn press(&mut self, button: InputButton, px: i64, py: i64)
        requires
            old(self).wf(),
        ensures
            final(self).wf(),
            same_frame(old(self)@, final(self)@),
            final(self)@.hover == old(self)@.hover,
            button == InputButton::MouseLeft ==> final(self)@.cells == old(self)@.edited(
                px as int,
                py as int,
                true,
            ),
            button == InputButton::MouseRight ==> final(self)@.cells == old(self)@.edited(
                px as int,
                py as int,
                false,
            ),
            button == InputButton::KeySpace ==> final(self)@.cells == step_spec(
                old(self)@.cells,
                old(self)@.columns,
                old(self)@.rows,
            ),
            button == InputButton::KeyR ==> final(self)@.cells.len() == old(self)@.cells.len(),
            button == InputButton::Other ==> final(self)@.cells == old(self)@.cells,
    {
        match button {
            InputButton::MouseLeft => self.edit_at(px, py, true),
            InputButton::MouseRight => self.edit_at(px, py, false),
            InputButton::KeySpace => self.step(),
            InputButton::KeyR => self.randomize(),
            InputButton::Other => (),
        }
    }
}

/// An evenly divisible extent is its part count times its part size.
proof fn lemma_exact_division(total: int, parts: int)
    requires
        0 < parts,
        parts <= total,
        total % parts == 0,
    ensures
        total == parts * (total / parts),
        0 < total / parts,
{
    lemma_fundamental_div_mod(total, parts);
    if total / parts <= 0 {
        lemma_mul_inequality(total / parts, 0, parts);
        lemma_mul_is_commutative(total / parts, parts);
        assert(false);
    }
}

/// An offset strictly below `parts * size` lands in a part index strictly
/// below `parts`.
proof fn lemma_div_below(total: int, parts: int, size: int, offset: int)
    requires
        0 < parts,
        0 < size,
        total == parts * size,
        0 <= offset < total,
    ensures
        0 <= offset / size < parts,
{
    lemma_div_pos_is_pos(offset, size);
    lemma_fundamental_div_mod(offset, size);
    lemma_mod_bound(offset, size);
    lemma_mul_is_commutative(size, offset / size);
    if offset / size >= parts {
        lemma_mul_inequality(parts, offset / size, size);
        lemma_mul_is_commutative(parts, size);
        assert(false);
    }
}

} // verus!
