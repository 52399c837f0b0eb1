use vstd::prelude::*;
use vstd::arithmetic::div_mod::{
    lemma_fundamental_div_mod,
    lemma_fundamental_div_mod_converse_div,
    lemma_fundamental_div_mod_converse_mod,
    lemma_mod_add_multiples_vanish,
    lemma_mod_bound,
    lemma_small_mod,
};

use crate::draw::{ops_view, push_op, append_ops, DrawOp, DrawOpView};
use crate::types::Area;

verus! {

broadcast use vstd::string::group_string_axioms;

/// Whether the simulation advances on a tick.
#[derive(Clone, Copy, Debug, PartialEq, Eq, Structural)]
pub enum State {
    Running,
    Paused,
}

/// The state of one grid position.
#[derive(Clone, Copy, Debug, PartialEq, Eq, Structural)]
pub enum Cell {
    Dead,
    Alive,
}

/// A cell counts as 0 when dead and 1 when alive.
pub open spec fn cell_value(c: Cell) -> nat {
    match c {
        Cell::Dead => 0,
        Cell::Alive => 1,
    }
}

/// Grid sizing: the number of cells along each axis and the size of a cell
/// in surface units.
#[derive(Clone, Copy, Debug, PartialEq, Eq, Structural)]
pub struct Dimensions {
    pub cells_x: u32,
    pub cells_y: u32,
    pub cell_w: u32,
    pub cell_h: u32,
}

/// Canvas styles for the grid lines, the live cells and the dead cells.
#[derive(Clone, Debug)]
pub struct Colours {
    pub grid: String,
    pub alive: String,
    pub dead: String,
}

pub const GRID_CELLS_X: u32 = 40;

pub const GRID_CELLS_Y: u32 = 30;

pub const CELL_SIZE: u32 = 16;

/// The cell at `(row, col)`, both taken modulo the grid's size, so that the
/// grid wraps round at its edges.
pub open spec fn cell_at(cells: Seq<Cell>, cols: int, rows: int, row: int, col: int) -> nat {
    cell_value(cells[wrapped_index(cols, rows, row, col)])
}

/// The index of the cell at `(row, col)`, both taken modulo the grid's size.
pub open spec fn wrapped_index(cols: int, rows: int, row: int, col: int) -> int {
    (row % rows) * cols + col % cols
}

/// The number of live cells among the eight that surround `(row, col)` on
/// the torus.
pub open spec fn live_neighbours(cells: Seq<Cell>, cols: int, rows: int, row: int, col: int) -> nat {
    cell_at(cells, cols, rows, row - 1, col - 1) + cell_at(cells, cols, rows, row - 1, col)
        + cell_at(cells, cols, rows, row - 1, col + 1) + cell_at(cells, cols, rows, row, col - 1)
        + cell_at(cells, cols, rows, row, col + 1) + cell_at(cells, cols, rows, row + 1, col - 1)
        + cell_at(cells, cols, rows, row + 1, col) + cell_at(cells, cols, rows, row + 1, col + 1)
}

/// Conway's rule: a live cell survives with two or three live neighbours, a
/// dead cell comes alive with exactly three.
pub open spec fn next_cell_state(cell: Cell, live: nat) -> Cell {
    match cell {
        Cell::Alive => if live == 2 || live == 3 {
            Cell::Alive
        } else {
            Cell::Dead
        },
        Cell::Dead => if live == 3 {
            Cell::Alive
        } else {
            Cell::Dead
        },
    }
}

/// The next generation of a row-major grid with `cols` columns and `rows`
/// rows: every cell is computed from the current generation only.
pub open spec fn next_generation(cells: Seq<Cell>, cols: int, rows: int) -> Seq<Cell> {
    Seq::new(
        cells.len(),
        |i: int| next_cell_state(cells[i], live_neighbours(cells, cols, rows, i / cols, i % cols)),
    )
}

/// The next state of one cell, given its live neighbours.
pub fn next_cell(cell: Cell, live_neighbours: u8) -> (r: Cell)
    ensures
        r == next_cell_state(cell, live_neighbours as nat),
        cell == Cell::Alive && live_neighbours < 2 ==> r == Cell::Dead,
        cell == Cell::Alive && (live_neighbours == 2 || live_neighbours == 3) ==> r == Cell::Alive,
        cell == Cell::Alive && live_neighbours > 3 ==> r == Cell::Dead,
        cell == Cell::Dead && live_neighbours == 3 ==> r == Cell::Alive,
        cell == Cell::Dead && live_neighbours != 3 ==> r == Cell::Dead,
{
    match cell {
        Cell::Alive => if live_neighbours == 2 || live_neighbours == 3 {
            Cell::Alive
        } else {
            Cell::Dead
        },
        Cell::Dead => if live_neighbours == 3 {
            Cell::Alive
        } else {
            Cell::Dead
        },
    }
}

/// Relies on rand::random::<bool>: a fair coin flip from the thread-local
/// generator. Nothing is promised of the outcome.
#[verifier::external_body]
fn random_bool() -> bool {
    rand::random::<bool>()
}

/// A flip of `true` stands for a live cell, `false` for a dead one.
pub open spec fn bit_cell(alive: bool) -> Cell {
    if alive {
        Cell::Alive
    } else {
        Cell::Dead
    }
}

/// The cell that a coin flip stands for.
pub fn cell_from_bit(alive: bool) -> (r: Cell)
    ensures
        r == bit_cell(alive),
{
    if alive {
        Cell::Alive
    } else {
        Cell::Dead
    }
}

/// The cells that the coin flips `bits` stand for, in order.
pub fn cells_from_bits(bits: &Vec<bool>) -> (r: Vec<Cell>)
    ensures
        r@ == bits@.map_values(|b: bool| bit_cell(b)),
{
    let mut cells: Vec<Cell> = Vec::new();
    let mut i: usize = 0;
    while i < bits.len()
        invariant
            i <= bits@.len(),
            cells@ == bits@.subrange(0, i as int).map_values(|b: bool| bit_cell(b)),
        decreases bits@.len() - i,
    {
        cells.push(cell_from_bit(bits[i]));
        i = i + 1;
        assert(cells@ =~= bits@.subrange(0, i as int).map_values(|b: bool| bit_cell(b)));
    }
    assert(bits@.subrange(0, i as int) =~= bits@);
    cells
}

/// `n` fair coin flips.
fn random_bits(n: usize) -> (r: Vec<bool>)
    ensures
        r@.len() == n,
{
    let mut bits: Vec<bool> = Vec::new();
    let mut i: usize = 0;
    while i < n
        invariant
            i <= n,
            bits@.len() == i,
        decreases n - i,
    {
        bits.push(random_bool());
        i = i + 1;
    }
    bits
}

/// The simulation: a screen region, a grid of cells stored row-major
/// (`row * cells_x + col`), the run state and whether the grid needs drawing.
pub struct World {
    pub area: Area,
    dimensions: Dimensions,
    colours: Colours,
    cells: Vec<Cell>,
    dirty: bool,
    state: State,
}

/// What a `World` holds, with its grid as a sequence.
pub struct WorldView {
    pub area: Area,
    pub dimensions: Dimensions,
    pub colours: Colours,
    pub cells: Seq<Cell>,
    pub dirty: bool,
    pub state: State,
}

impl WorldView {
    pub open spec fn cols(self) -> int {
        self.dimensions.cells_x as int
    }

    pub open spec fn rows(self) -> int {
        self.dimensions.cells_y as int
    }

    /// The grid is non-empty, holds one cell per position, and its extent in
    /// surface units fits the coordinate type.
    pub open spec fn wf(self) -> bool {
        &&& self.cols() >= 1
        &&& self.rows() >= 1
        &&& self.cells.len() == self.cols() * self.rows()
        &&& self.cells.len() <= usize::MAX
        &&& self.cols() * self.dimensions.cell_w <= i32::MAX
        &&& self.rows() * self.dimensions.cell_h <= i32::MAX
    }

    /// The state after one tick.
    pub open spec fn ticked(self) -> WorldView {
        if self.state == State::Paused {
            self
        } else {
            WorldView {
                cells: next_generation(self.cells, self.cols(), self.rows()),
                dirty: true,
                ..self
            }
        }
    }

    /// The state after a render.
    pub open spec fn rendered(self) -> WorldView {
        WorldView { dirty: false, ..self }
    }
}


/// The x coordinate of the `i`-th column boundary.
pub open spec fn column_x(v: WorldView, i: int) -> int {
    v.area.x1 + i * v.dimensions.cell_w
}

/// The y coordinate of the `j`-th row boundary.
pub open spec fn row_y(v: WorldView, j: int) -> int {
    v.area.y1 + j * v.dimensions.cell_h
}

/// The first `n` vertical grid lines, each from the region's top to its
/// bottom.
pub open spec fn vertical_lines(v: WorldView, n: int) -> Seq<DrawOpView>
    decreases n,
{
    if n <= 0 {
        seq![]
    } else {
        vertical_lines(v, n - 1) + seq![
            DrawOpView::MoveTo(column_x(v, n - 1), v.area.y1 as int),
            DrawOpView::LineTo(column_x(v, n - 1), v.area.y2 as int),
        ]
    }
}

/// The first `n` horizontal grid lines, each from the region's left to its
/// right.
pub open spec fn horizontal_lines(v: WorldView, n: int) -> Seq<DrawOpView>
    decreases n,
{
    if n <= 0 {
        seq![]
    } else {
        horizontal_lines(v, n - 1) + seq![
            DrawOpView::MoveTo(v.area.x1 as int, row_y(v, n - 1)),
            DrawOpView::LineTo(v.area.x2 as int, row_y(v, n - 1)),
        ]
    }
}

/// The grid lines: one at every column boundary and one at every row
/// boundary, stroked in the grid colour.
pub open spec fn grid_ops(v: WorldView) -> Seq<DrawOpView> {
    seq![DrawOpView::BeginPath, DrawOpView::SetStrokeStyle(v.colours.grid@)] + vertical_lines(
        v,
        v.cols() + 1,
    ) + horizontal_lines(v, v.rows() + 1) + seq![DrawOpView::Stroke]
}

/// The filled box of the cell at index `i`, inset by one unit on each side.
pub open spec fn cell_rect(v: WorldView, i: int) -> DrawOpView {
    DrawOpView::FillRect(
        column_x(v, i % v.cols()) + 1,
        row_y(v, i / v.cols()) + 1,
        v.dimensions.cell_w - 2,
        v.dimensions.cell_h - 2,
    )
}

/// The boxes of the cells of kind `kind` among the first `n`, in grid order.
pub open spec fn cell_rects(v: WorldView, kind: Cell, n: int) -> Seq<DrawOpView>
    decreases n,
{
    if n <= 0 {
        seq![]
    } else if v.cells[n - 1] == kind {
        cell_rects(v, kind, n - 1).push(cell_rect(v, n - 1))
    } else {
        cell_rects(v, kind, n - 1)
    }
}

pub open spec fn colour_of(v: WorldView, kind: Cell) -> Seq<char> {
    match kind {
        Cell::Alive => v.colours.alive@,
        Cell::Dead => v.colours.dead@,
    }
}

/// Every cell of kind `kind`, filled in its colour.
pub open spec fn cells_ops(v: WorldView, kind: Cell) -> Seq<DrawOpView> {
    seq![DrawOpView::SetFillStyle(colour_of(v, kind))] + cell_rects(v, kind, v.cells.len() as int)
}

/// What a render draws: nothing when the grid is clean; else the grid
/// lines, then the live cells, then the dead cells.
pub open spec fn render_ops(v: WorldView) -> Seq<DrawOpView> {
    if v.dirty {
        grid_ops(v) + cells_ops(v, Cell::Alive) + cells_ops(v, Cell::Dead)
    } else {
        seq![]
    }
}

pub open spec fn toggled(s: State) -> State {
    match s {
        State::Running => State::Paused,
        State::Paused => State::Running,
    }
}

/// Whether `cells_x` by `cells_y` cells of `cell_w` by `cell_h` units make a
/// grid that a `World` can hold.
pub open spec fn grid_fits(d: Dimensions) -> bool {
    &&& d.cells_x >= 1
    &&& d.cells_y >= 1
    &&& d.cells_x * d.cell_w <= i32::MAX
    &&& d.cells_y * d.cell_h <= i32::MAX
}

impl View for World {
    type V = WorldView;

    closed spec fn view(&self) -> WorldView {
        WorldView {
            area: self.area,
            dimensions: self.dimensions,
            colours: self.colours,
            cells: self.cells@,
            dirty: self.dirty,
            state: self.state,
        }
    }
}

proof fn lemma_index_in_grid(row: int, col: int, cols: int, rows: int)
    requires
        0 <= row < rows,
        0 <= col < cols,
    ensures
        0 <= row * cols + col < cols * rows,
{
    assert(row * cols <= (rows - 1) * cols) by (nonlinear_arith)
        requires
            0 <= row < rows,
            0 <= cols,
    ;
    assert((rows - 1) * cols == cols * rows - cols) by (nonlinear_arith);
    assert(0 <= row * cols) by (nonlinear_arith)
        requires
            0 <= row,
            0 <= cols,
    ;
}

proof fn lemma_split_index(i: int, cols: int, rows: int)
    requires
        0 <= i < cols * rows,
        cols >= 1,
    ensures
        0 <= i / cols < rows,
        0 <= i % cols < cols,
        i == (i / cols) * cols + i % cols,
{
    lemma_fundamental_div_mod(i, cols);
    lemma_mod_bound(i, cols);
    let q = i / cols;
    let r = i % cols;
    assert(0 <= q < rows) by (nonlinear_arith)
        requires
            i == cols * q + r,
            0 <= r < cols,
            0 <= i < cols * rows,
            cols >= 1,
    ;
    assert(cols * q == q * cols) by (nonlinear_arith);
}

/// A second render with no change in between draws nothing and changes
/// nothing.
pub proof fn lemma_render_twice(v: WorldView)
    ensures
        render_ops(v.rendered()) == Seq::<DrawOpView>::empty(),
        v.rendered().rendered() == v.rendered(),
{
    assert(render_ops(v.rendered()) =~= Seq::<DrawOpView>::empty());
}

/// No neighbour is lost at the edges: on a grid where every cell is alive,
/// every cell has eight live neighbours.
pub proof fn lemma_full_grid_neighbours(cells: Seq<Cell>, cols: int, rows: int, row: int, col: int)
    requires
        cols >= 1,
        rows >= 1,
        cells.len() == cols * rows,
        forall|i: int| 0 <= i < cells.len() ==> cells[i] == Cell::Alive,
        0 <= row < rows,
        0 <= col < cols,
    ensures
        live_neighbours(cells, cols, rows, row, col) == 8,
{
    assert forall|r: int, c: int| cell_at(cells, cols, rows, r, c) == 1 by {
        lemma_mod_bound(r, rows);
        lemma_mod_bound(c, cols);
        lemma_index_in_grid(r % rows, c % cols, cols, rows);
    }
}

/// A coordinate one step past either edge wraps round to the other edge.
proof fn lemma_wrap_step(x: int, n: int)
    requires
        n >= 1,
        -1 <= x <= n,
    ensures
        x % n == (if x < 0 {
            x + n
        } else if x >= n {
            x - n
        } else {
            x
        }),
{
    if x < 0 {
        lemma_fundamental_div_mod_converse_mod(x, n, -1, x + n);
    } else if x >= n {
        lemma_fundamental_div_mod_converse_mod(x, n, 1, x - n);
    } else {
        lemma_fundamental_div_mod_converse_mod(x, n, 0, x);
    }
}

/// On a grid of at least 3 by 3 cells, the eight neighbours of a cell and
/// the cell itself are nine different cells of the grid, edges included:
/// no neighbour is lost or counted twice.
pub proof fn lemma_neighbours_distinct(
    cols: int,
    rows: int,
    row: int,
    col: int,
    dr1: int,
    dc1: int,
    dr2: int,
    dc2: int,
)
    requires
        cols >= 3,
        rows >= 3,
        0 <= row < rows,
        0 <= col < cols,
        -1 <= dr1 <= 1,
        -1 <= dc1 <= 1,
        -1 <= dr2 <= 1,
        -1 <= dc2 <= 1,
        dr1 != dr2 || dc1 != dc2,
    ensures
        0 <= wrapped_index(cols, rows, row + dr1, col + dc1) < cols * rows,
        wrapped_index(cols, rows, row + dr1, col + dc1) != wrapped_index(
            cols,
            rows,
            row + dr2,
            col + dc2,
        ),
{
    lemma_wrap_step(row + dr1, rows);
    lemma_wrap_step(row + dr2, rows);
    lemma_wrap_step(col + dc1, cols);
    lemma_wrap_step(col + dc2, cols);
    let r1 = (row + dr1) % rows;
    let r2 = (row + dr2) % rows;
    let c1 = (col + dc1) % cols;
    let c2 = (col + dc2) % cols;
    lemma_index_in_grid(r1, c1, cols, rows);
    if r1 != r2 {
        let i1 = r1 * cols + c1;
        let i2 = r2 * cols + c2;
        lemma_fundamental_div_mod_converse_div(i1, cols, r1, c1);
        lemma_fundamental_div_mod_converse_div(i2, cols, r2, c2);
    }
}

/// The grid wraps round: the neighbour up and to the left of the top-left
/// corner is the bottom-right corner, the last cell of the grid.
pub proof fn lemma_corner_wraps(cols: int, rows: int)
    requires
        cols >= 1,
        rows >= 1,
    ensures
        ((0 - 1) % rows) * cols + (0 - 1) % cols == cols * rows - 1,
{
    lemma_mod_add_multiples_vanish(-1, rows);
    lemma_mod_add_multiples_vanish(-1, cols);
    lemma_small_mod((rows - 1) as nat, rows as nat);
    lemma_small_mod((cols - 1) as nat, cols as nat);
    assert((rows - 1) * cols + (cols - 1) == cols * rows - 1) by (nonlinear_arith);
}

proof fn lemma_u32_product(a: u32, b: u32)
    ensures
        0 <= a * b <= u64::MAX,
{
    assert(0 <= a * b <= u64::MAX) by (nonlinear_arith)
        requires
            a <= u32::MAX,
            b <= u32::MAX,
    ;
}

proof fn lemma_mul_le(i: int, n: int, c: int)
    requires
        0 <= i <= n,
        0 <= c,
    ensures
        0 <= i * c <= n * c,
{
    assert(0 <= i * c <= n * c) by (nonlinear_arith)
        requires
            0 <= i <= n,
            0 <= c,
    ;
}

impl World {
    pub closed spec fn wf(&self) -> bool {
        self@.wf()
    }

    /// A 40 by 30 grid of 16 by 16 unit cells over `area`, every cell alive
    /// or dead by a fair coin flip, running and waiting to be drawn.
    pub fn new(area: Area) -> (r: World)
        ensures
            r.wf(),
            r@.area == area,
            r@.dimensions == (Dimensions {
                cells_x: GRID_CELLS_X,
                cells_y: GRID_CELLS_Y,
                cell_w: CELL_SIZE,
                cell_h: CELL_SIZE,
            }),
            r@.colours.grid@ == "#CCCCCC"@,
            r@.colours.alive@ == "#555555"@,
            r@.colours.dead@ == "#FFFFFF"@,
            r@.cells.len() == GRID_CELLS_X * GRID_CELLS_Y,
            r@.state == State::Running,
            r@.dirty,
    {
        let dimensions = Dimensions {
            cells_x: GRID_CELLS_X,
            cells_y: GRID_CELLS_Y,
            cell_w: CELL_SIZE,
            cell_h: CELL_SIZE,
        };
        let cells = cells_from_bits(&random_bits((GRID_CELLS_X * GRID_CELLS_Y) as usize));
        let colours = Colours {
            grid: "#CCCCCC".to_string(),
            alive: "#555555".to_string(),
            dead: "#FFFFFF".to_string(),
        };
        World { area, dimensions, colours, cells, dirty: true, state: State::Running }
    }

    /// A world over `area` with the given grid, running and waiting to be
    /// drawn; `None` where the cells do not make a `cells_x` by `cells_y`
    /// grid, or the grid does not fit.
    pub fn with_cells(area: Area, dimensions: Dimensions, colours: Colours, cells: Vec<Cell>) -> (r:
        Option<World>)
        ensures
            r is Some <==> grid_fits(dimensions) && cells@.len() == dimensions.cells_x
                * dimensions.cells_y,
            r matches Some(w) ==> {
                &&& w.wf()
                &&& w@.area == area
                &&& w@.dimensions == dimensions
                &&& w@.colours == colours
                &&& w@.cells == cells@
                &&& w@.state == State::Running
                &&& w@.dirty
            },
    {
        if dimensions.cells_x == 0 || dimensions.cells_y == 0 {
            return None;
        }
        proof {
            lemma_u32_product(dimensions.cells_x, dimensions.cell_w);
            lemma_u32_product(dimensions.cells_y, dimensions.cell_h);
            lemma_u32_product(dimensions.cells_x, dimensions.cells_y);
        }
        if (dimensions.cells_x as u64) * (dimensions.cell_w as u64) > i32::MAX as u64 {
            return None;
        }
        if (dimensions.cells_y as u64) * (dimensions.cell_h as u64) > i32::MAX as u64 {
            return None;
        }
        if cells.len() as u64 != (dimensions.cells_x as u64) * (dimensions.cells_y as u64) {
            return None;
        }
        Some(World { area, dimensions, colours, cells, dirty: true, state: State::Running })
    }

    pub fn cells(&self) -> (r: &Vec<Cell>)
        ensures
            r@ == self@.cells,
    {
        &self.cells
    }

    pub fn state(&self) -> (r: State)
        ensures
            r == self@.state,
    {
        self.state
    }

    pub fn is_dirty(&self) -> (r: bool)
        ensures
            r == self@.dirty,
    {
        self.dirty
    }

    pub fn dimensions(&self) -> (r: Dimensions)
        ensures
            r == self@.dimensions,
    {
        self.dimensions
    }

    /// Flips between running and paused.
    pub fn toggle_state(&mut self)
        ensures
            final(self)@ == (WorldView { state: toggled(old(self)@.state), ..old(self)@ }),
            final(self).wf() == old(self).wf(),
    {
        self.state = match self.state {
            State::Running => State::Paused,
            State::Paused => State::Running,
        }
    }

    /// Draws every cell anew by a fair coin flip and marks the grid for
    /// drawing.
    pub fn randomize_state(&mut self)
        requires
            old(self).wf(),
        ensures
            final(self).wf(),
            final(self)@ == (WorldView { cells: final(self)@.cells, dirty: true, ..old(self)@ }),
            final(self)@.cells.len() == old(self)@.cells.len(),
    {
        let bits = random_bits(self.cells.len());
        let _ = self.reseed(&bits);
    }

    /// Sets every cell from the coin flip at its index and marks the grid for
    /// drawing; changes nothing and returns `false` where there is not one
    /// flip per cell.
    pub fn reseed(&mut self, bits: &Vec<bool>) -> (r: bool)
        requires
            old(self).wf(),
        ensures
            final(self).wf(),
            r == (bits@.len() == old(self)@.cells.len()),
            r ==> final(self)@ == (WorldView {
                cells: bits@.map_values(|b: bool| bit_cell(b)),
                dirty: true,
                ..old(self)@
            }),
            !r ==> final(self)@ == old(self)@,
    {
        if bits.len() != self.cells.len() {
            return false;
        }
        self.cells = cells_from_bits(bits);
        self.dirty = true;
        true
    }

    fn get_index(&self, row: usize, col: usize) -> (r: usize)
        requires
            self.wf(),
            row < self@.rows(),
            col < self@.cols(),
        ensures
            r == row * self@.cols() + col,
            r < self@.cells.len(),
    {
        proof {
            lemma_index_in_grid(row as int, col as int, self@.cols(), self@.rows());
        }
        row * (self.dimensions.cells_x as usize) + col
    }

    fn live_neighbour_count(&self, row: usize, col: usize) -> (r: u8)
        requires
            self.wf(),
            row < self@.rows(),
            col < self@.cols(),
        ensures
            r == live_neighbours(self@.cells, self@.cols(), self@.rows(), row as int, col as int),
    {
        let rows = self.dimensions.cells_y as u64;
        let cols = self.dimensions.cells_x as u64;
        let up = ((row as u64 + rows - 1) % rows) as usize;
        let down = ((row as u64 + 1) % rows) as usize;
        let left = ((col as u64 + cols - 1) % cols) as usize;
        let right = ((col as u64 + 1) % cols) as usize;
        proof {
            let (ri, ci, rs, cs) = (row as int, col as int, rows as int, cols as int);
            lemma_mod_add_multiples_vanish(ri - 1, rs);
            lemma_mod_add_multiples_vanish(ci - 1, cs);
            lemma_mod_bound(ri - 1, rs);
            lemma_mod_bound(ci - 1, cs);
            lemma_mod_bound(ri + 1, rs);
            lemma_mod_bound(ci + 1, cs);
            lemma_small_mod(row as nat, rows as nat);
            lemma_small_mod(col as nat, cols as nat);
        }
        let mut count: u8 = 0;
        count = count + self.cell_value_at(up, left);
        count = count + self.cell_value_at(up, col);
        count = count + self.cell_value_at(up, right);
        count = count + self.cell_value_at(row, left);
        count = count + self.cell_value_at(row, right);
        count = count + self.cell_value_at(down, left);
        count = count + self.cell_value_at(down, col);
        count = count + self.cell_value_at(down, right);
        count
    }

    fn cell_value_at(&self, row: usize, col: usize) -> (r: u8)
        requires
            self.wf(),
            row < self@.rows(),
            col < self@.cols(),
        ensures
            r == cell_value(self@.cells[row * self@.cols() + col]),
            r <= 1,
    {
        let index = self.get_index(row, col);
        match self.cells[index] {
            Cell::Dead => 0,
            Cell::Alive => 1,
        }
    }

    /// Advances the grid one generation, unless paused. Every cell's next
    /// state is computed from the current generation, then the grid is
    /// replaced whole.
    pub fn update_state(&mut self)
        requires
            old(self).wf(),
        ensures
            final(self).wf(),
            final(self)@ == old(self)@.ticked(),
    {
        if self.state == State::Paused {
            return;
        }
        let n = self.cells.len();
        let cols = self.dimensions.cells_x as usize;
        let ghost target = next_generation(self@.cells, self@.cols(), self@.rows());
        let mut next_state: Vec<Cell> = Vec::new();
        let mut index: usize = 0;
        while index < n
            invariant
                self.wf(),
                n == self@.cells.len(),
                cols == self@.cols(),
                target == next_generation(self@.cells, self@.cols(), self@.rows()),
                index <= n,
                next_state@ == target.subrange(0, index as int),
            decreases n - index,
        {
            proof {
                lemma_split_index(index as int, self@.cols(), self@.rows());
            }
            let row = index / cols;
            let col = index % cols;
            let live = self.live_neighbour_count(row, col);
            next_state.push(next_cell(self.cells[index], live));
            index = index + 1;
            assert(next_state@ =~= target.subrange(0, index as int));
        }
        assert(next_state@ =~= target);
        self.cells = next_state;
        self.dirty = true;
    }

    /// The grid lines.
    pub fn draw_grid(&self) -> (r: Vec<DrawOp>)
        requires
            self.wf(),
        ensures
            ops_view(r@) == grid_ops(self@),
    {
        let ghost v = self@;
        let x = self.area.x1 as i64;
        let y = self.area.y1 as i64;
        let cols = self.dimensions.cells_x as u64;
        let rows = self.dimensions.cells_y as u64;
        let cell_w = self.dimensions.cell_w as i64;
        let cell_h = self.dimensions.cell_h as i64;
        let mut ops: Vec<DrawOp> = Vec::new();
        push_op(&mut ops, DrawOp::BeginPath);
        push_op(&mut ops, DrawOp::SetStrokeStyle(self.colours.grid.clone()));
        let ghost head = ops_view(ops@);
        let mut i: u64 = 0;
        while i < cols + 1
            invariant
                v == self@,
                v.wf(),
                cols == v.cols(),
                x == v.area.x1,
                y == v.area.y1,
                cell_w == v.dimensions.cell_w,
                i <= cols + 1,
                ops_view(ops@) == head + vertical_lines(v, i as int),
            decreases cols + 1 - i,
        {
            proof {
                lemma_mul_le(i as int, cols as int, cell_w as int);
            }
            let line_x = x + (i as i64) * cell_w;
            push_op(&mut ops, DrawOp::MoveTo(line_x, y));
            push_op(&mut ops, DrawOp::LineTo(line_x, self.area.y2 as i64));
            i = i + 1;
            assert(ops_view(ops@) =~= head + vertical_lines(v, i as int));
        }
        let ghost head = ops_view(ops@);
        let mut j: u64 = 0;
        while j < rows + 1
            invariant
                v == self@,
                v.wf(),
                rows == v.rows(),
                x == v.area.x1,
                y == v.area.y1,
                cell_h == v.dimensions.cell_h,
                j <= rows + 1,
                ops_view(ops@) == head + horizontal_lines(v, j as int),
            decreases rows + 1 - j,
        {
            proof {
                lemma_mul_le(j as int, rows as int, cell_h as int);
            }
            let line_y = y + (j as i64) * cell_h;
            push_op(&mut ops, DrawOp::MoveTo(x, line_y));
            push_op(&mut ops, DrawOp::LineTo(self.area.x2 as i64, line_y));
            j = j + 1;
            assert(ops_view(ops@) =~= head + horizontal_lines(v, j as int));
        }
        push_op(&mut ops, DrawOp::Stroke);
        assert(ops_view(ops@) =~= grid_ops(v));
        ops
    }

    /// The live cells, then the dead cells.
    pub fn draw_cells(&self) -> (r: Vec<DrawOp>)
        requires
            self.wf(),
        ensures
            ops_view(r@) == cells_ops(self@, Cell::Alive) + cells_ops(self@, Cell::Dead),
    {
        let mut ops = self.draw_cell_types(Cell::Alive);
        append_ops(&mut ops, self.draw_cell_types(Cell::Dead));
        ops
    }

    fn draw_cell_types(&self, kind: Cell) -> (r: Vec<DrawOp>)
        requires
            self.wf(),
        ensures
            ops_view(r@) == cells_ops(self@, kind),
    {
        let ghost v = self@;
        let x = self.area.x1 as i64;
        let y = self.area.y1 as i64;
        let cols = self.dimensions.cells_x as usize;
        let cell_w = self.dimensions.cell_w as i64;
        let cell_h = self.dimensions.cell_h as i64;
        let colour = match kind {
            Cell::Dead => self.colours.dead.clone(),
            Cell::Alive => self.colours.alive.clone(),
        };
        let mut ops: Vec<DrawOp> = Vec::new();
        push_op(&mut ops, DrawOp::SetFillStyle(colour));
        let ghost head = ops_view(ops@);
        let n = self.cells.len();
        let mut index: usize = 0;
        while index < n
            invariant
                v == self@,
                v.wf(),
                n == v.cells.len(),
                cols == v.cols(),
                x == v.area.x1,
                y == v.area.y1,
                cell_w == v.dimensions.cell_w,
                cell_h == v.dimensions.cell_h,
                index <= n,
                ops_view(ops@) == head + cell_rects(v, kind, index as int),
            decreases n - index,
        {
            if self.cells[index] == kind {
                proof {
                    lemma_split_index(index as int, v.cols(), v.rows());
                    lemma_mul_le(index as int / v.cols(), v.rows(), cell_h as int);
                    lemma_mul_le(index as int % v.cols(), v.cols(), cell_w as int);
                }
                let row = index / cols;
                let col = index % cols;
                let left = x + (col as i64) * cell_w + 1;
                let top = y + (row as i64) * cell_h + 1;
                push_op(&mut ops, DrawOp::FillRect(left, top, cell_w - 2, cell_h - 2));
            }
            index = index + 1;
            assert(ops_view(ops@) =~= head + cell_rects(v, kind, index as int));
        }
        ops
    }

    /// Draws the grid when it has changed since the last render, and marks it
    /// clean.
    pub fn render(&mut self) -> (r: Vec<DrawOp>)
        requires
            old(self).wf(),
        ensures
            final(self).wf(),
            final(self)@ == old(self)@.rendered(),
            ops_view(r@) == render_ops(old(self)@),
    {
        if !self.dirty {
            let r: Vec<DrawOp> = Vec::new();
            assert(ops_view(r@) =~= seq![]);
            return r;
        }
        let mut ops = self.draw_grid();
        append_ops(&mut ops, self.draw_cells());
        self.dirty = false;
        assert(ops_view(ops@) =~= render_ops(old(self)@));
        ops
    }
}

} // verus!
