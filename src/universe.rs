use vstd::prelude::*;
use vstd::arithmetic::div_mod::lemma_fundamental_div_mod_converse;
use crate::cell::{Cell, count_of, next_state, glyph_of};

verus! {

/// Side length of the grid that `Universe::new` builds.
pub const DEFAULT_SIDE: u32 = 64;

/// The mathematical content of a grid: its size and its cells, row by row.
pub ghost struct GridView {
    pub width: nat,
    pub height: nat,
    pub cells: Seq<Cell>,
}

/// Position of `(row, column)` in the row-major cell sequence.
pub open spec fn flat_index(width: int, row: int, column: int) -> int {
    row * width + column
}

/// Whether `cells` can be the cells of a `width` by `height` grid: both sides
/// are positive, the cell count fits in a `u32`, and there is one cell for
/// each position.
pub open spec fn grid_ok(width: nat, height: nat, cells: Seq<Cell>) -> bool {
    &&& width > 0
    &&& height > 0
    &&& width * height <= u32::MAX
    &&& cells.len() == width * height
}

/// The state that the initial pattern gives to the cell at flat index `i`.
pub open spec fn seed_state(i: int) -> Cell {
    if i % 2 == 0 || i % 7 == 0 {
        Cell::Alive
    } else {
        Cell::Dead
    }
}

/// The initial pattern over `n` cells.
pub open spec fn seeded(n: nat) -> Seq<Cell> {
    Seq::new(n, |i: int| seed_state(i))
}

/// What the neighbour reached by the deltas `(dr, dc)` adds to the count of
/// `(row, column)`. The pair `(0, 0)` is the cell itself and adds nothing;
/// any other pair is taken modulo the sides, so the edges wrap around.
pub open spec fn neighbor_term(
    cells: Seq<Cell>,
    width: nat,
    height: nat,
    row: int,
    column: int,
    dr: int,
    dc: int,
) -> nat {
    if dr == 0 && dc == 0 {
        0
    } else {
        count_of(cells[flat_index(width as int, (row + dr) % (height as int), (column + dc) % (width as int))])
    }
}

/// The three terms of one row delta, over the column deltas `width - 1`, `0`, `1`.
pub open spec fn neighbor_row_sum(
    cells: Seq<Cell>,
    width: nat,
    height: nat,
    row: int,
    column: int,
    dr: int,
) -> nat {
    neighbor_term(cells, width, height, row, column, dr, width - 1)
        + neighbor_term(cells, width, height, row, column, dr, 0)
        + neighbor_term(cells, width, height, row, column, dr, 1)
}

/// The live-neighbour count of `(row, column)`: the terms of the row deltas
/// `height - 1`, `0`, `1`, each with the column deltas `width - 1`, `0`, `1`.
pub open spec fn live_neighbors(cells: Seq<Cell>, width: nat, height: nat, row: int, column: int) -> nat {
    neighbor_row_sum(cells, width, height, row, column, height - 1)
        + neighbor_row_sum(cells, width, height, row, column, 0)
        + neighbor_row_sum(cells, width, height, row, column, 1)
}

/// The cells of the next generation: each cell's rule applied to its state
/// and live-neighbour count in the current one.
pub open spec fn next_generation(cells: Seq<Cell>, width: nat, height: nat) -> Seq<Cell> {
    Seq::new(
        cells.len(),
        |i: int|
            next_state(
                cells[i],
                live_neighbors(cells, width, height, i / (width as int), i % (width as int)) as int,
            ),
    )
}

/// The cells after `n` generations.
pub open spec fn generations(cells: Seq<Cell>, width: nat, height: nat, n: nat) -> Seq<Cell>
    decreases n,
{
    if n == 0 {
        cells
    } else {
        next_generation(generations(cells, width, height, (n - 1) as nat), width, height)
    }
}

/// The glyphs of one row.
pub open spec fn line_text(cells: Seq<Cell>, width: nat, row: int) -> Seq<char> {
    Seq::new(width, |c: int| glyph_of(cells[flat_index(width as int, row, c)]))
}

/// The text of the first `n` rows, each followed by a line break.
pub open spec fn rendered_rows(cells: Seq<Cell>, width: nat, n: nat) -> Seq<char>
    decreases n,
{
    if n == 0 {
        Seq::empty()
    } else {
        rendered_rows(cells, width, (n - 1) as nat) + line_text(cells, width, n - 1) + seq!['\n']
    }
}

/// A position inside the grid has a flat index inside the cell sequence,
/// and the row and column come back from it by division and remainder.
pub proof fn lemma_index_in_grid(width: int, height: int, row: int, column: int)
    requires
        0 <= row < height,
        0 <= column < width,
    ensures
        0 <= flat_index(width, row, column) < width * height,
        flat_index(width, row, column) / width == row,
        flat_index(width, row, column) % width == column,
{
    assert(0 <= row * width + column < width * height) by (nonlinear_arith)
        requires
            0 <= row < height,
            0 <= column < width,
    ;
    lemma_fundamental_div_mod_converse(row * width + column, width, row, column);
}

/// A toroidal Game of Life grid.
pub struct Universe {
    width: u32,
    height: u32,
    cells: Vec<Cell>,
}

impl View for Universe {
    type V = GridView;

    closed spec fn view(&self) -> GridView {
        GridView { width: self.width as nat, height: self.height as nat, cells: self.cells@ }
    }
}

impl Universe {
    /// The grid's invariant: positive sides and one cell per position.
    pub open spec fn wf(&self) -> bool {
        grid_ok(self@.width, self@.height, self@.cells)
    }

    /// A grid of the given size seeded with the initial pattern: the cell at
    /// flat index `i` is alive when `i` is even or a multiple of 7. Returns
    /// `None` when a side is 0 or the cell count does not fit in a `u32`.
    pub fn with_size(width: u32, height: u32) -> (r: Option<Universe>)
        ensures
            r is None <==> (width == 0 || height == 0 || width * height > u32::MAX),
            r matches Some(u) ==> u.wf() && u@ == (GridView {
                width: width as nat,
                height: height as nat,
                cells: seeded((width * height) as nat),
            }),
    {
        if width == 0 || height == 0 {
            return None;
        }
        let n: u32 = match width.checked_mul(height) {
            Some(n) => n,
            None => return None,
        };
        let mut cells: Vec<Cell> = Vec::new();
        for i in 0..n
            invariant
                cells@ =~= seeded(i as nat),
        {
            let cell = if i % 2 == 0 || i % 7 == 0 {
                Cell::Alive
            } else {
                Cell::Dead
            };
            cells.push(cell);
            assert(cells@ =~= seeded((i + 1) as nat));
        }
        Some(Universe { width, height, cells })
    }

    /// The 64 by 64 grid seeded with the initial pattern.
    pub fn new() -> (r: Universe)
        ensures
            r.wf(),
            r@ == (GridView {
                width: DEFAULT_SIDE as nat,
                height: DEFAULT_SIDE as nat,
                cells: seeded((DEFAULT_SIDE * DEFAULT_SIDE) as nat),
            }),
    {
        Self::with_size(DEFAULT_SIDE, DEFAULT_SIDE).unwrap()
    }

    /// A grid with the given cells, row by row. Returns `None` unless both
    /// sides are positive, the cell count fits in a `u32` and `cells` holds
    /// exactly `width * height` cells.
    pub fn from_cells(width: u32, height: u32, cells: Vec<Cell>) -> (r: Option<Universe>)
        ensures
            r is None <==> !grid_ok(width as nat, height as nat, cells@),
            r matches Some(u) ==> u@ == (GridView {
                width: width as nat,
                height: height as nat,
                cells: cells@,
            }),
    {
        if width == 0 || height == 0 {
            return None;
        }
        match width.checked_mul(height) {
            Some(n) => if cells.len() != n as usize {
                return None;
            },
            None => return None,
        }
        Some(Universe { width, height, cells })
    }

    /// Number of columns.
    pub fn width(&self) -> (r: u32)
        ensures
            r as nat == self@.width,
    {
        self.width
    }

    /// Number of rows.
    pub fn height(&self) -> (r: u32)
        ensures
            r as nat == self@.height,
    {
        self.height
    }

    /// The cells, row by row.
    pub fn cells(&self) -> (r: &[Cell])
        ensures
            r@ == self@.cells,
    {
        self.cells.as_slice()
    }

    /// Position of `(row, column)` in the row-major cell sequence.
    pub fn get_index(&self, row: u32, column: u32) -> (r: usize)
        requires
            self.wf(),
            row < self@.height,
            column < self@.width,
        ensures
            r as int == flat_index(self@.width as int, row as int, column as int),
            r < self@.cells.len(),
    {
        proof {
            lemma_index_in_grid(self.width as int, self.height as int, row as int, column as int);
        }
        (row * self.width + column) as usize
    }

    /// What the neighbour reached by the deltas `(dr, dc)` adds to the count
    /// of `(row, column)`.
    fn neighbor_term(&self, row: u32, column: u32, dr: u32, dc: u32) -> (r: u8)
        requires
            self.wf(),
            row < self@.height,
            column < self@.width,
        ensures
            r as nat == neighbor_term(
                self@.cells,
                self@.width,
                self@.height,
                row as int,
                column as int,
                dr as int,
                dc as int,
            ),
            r <= 1,
    {
        if dr == 0 && dc == 0 {
            0
        } else {
            let neighbor_row = ((row as u64 + dr as u64) % self.height as u64) as u32;
            let neighbor_column = ((column as u64 + dc as u64) % self.width as u64) as u32;
            let idx = self.get_index(neighbor_row, neighbor_column);
            self.cells[idx].as_count()
        }
    }

    /// The three terms of the row delta `dr`.
    fn neighbor_row_sum(&self, row: u32, column: u32, dr: u32) -> (r: u8)
        requires
            self.wf(),
            row < self@.height,
            column < self@.width,
        ensures
            r as nat == neighbor_row_sum(
                self@.cells,
                self@.width,
                self@.height,
                row as int,
                column as int,
                dr as int,
            ),
            r <= 3,
    {
        let west = self.width - 1;
        self.neighbor_term(row, column, dr, west) + self.neighbor_term(row, column, dr, 0)
            + self.neighbor_term(row, column, dr, 1)
    }

    /// How many of the eight neighbours of `(row, column)` are alive, the
    /// edges wrapping around. Always at most 8.
    pub fn live_neighbor_count(&self, row: u32, column: u32) -> (r: u8)
        requires
            self.wf(),
            row < self@.height,
            column < self@.width,
        ensures
            r as nat == live_neighbors(
                self@.cells,
                self@.width,
                self@.height,
                row as int,
                column as int,
            ),
            r <= 8,
    {
        let north = self.height - 1;
        let above = self.neighbor_row_sum(row, column, north);
        let level = self.neighbor_row_sum(row, column, 0);
        let below = self.neighbor_row_sum(row, column, 1);
        assert(level <= 2) by {
            assert(neighbor_term(self@.cells, self@.width, self@.height, row as int, column as int, 0, 0) == 0);
        }
        above + level + below
    }

    /// Advances the grid by one generation. Every new state is computed from
    /// the current cells before any of them is replaced.
    pub fn tick(&mut self)
        requires
            old(self).wf(),
        ensures
            final(self).wf(),
            final(self)@ == (GridView {
                cells: next_generation(old(self)@.cells, old(self)@.width, old(self)@.height),
                ..old(self)@
            }),
    {
        let ghost cells = self@.cells;
        let ghost w = self@.width;
        let ghost h = self@.height;
        let mut next: Vec<Cell> = Vec::new();
        assert(0 * w == 0) by (nonlinear_arith);
        for row in 0..self.height
            invariant
                self.wf(),
                self@.cells == cells,
                self@.width == w,
                self@.height == h,
                next@.len() == row * w,
                row * w <= cells.len(),
                forall|i: int| 0 <= i < next@.len() ==> next@[i] == #[trigger] next_generation(cells, w, h)[i],
        {
            for column in 0..self.width
                invariant
                    self.wf(),
                    self@.cells == cells,
                    self@.width == w,
                    self@.height == h,
                    row < h,
                    next@.len() == row * w + column,
                    row * w + column <= cells.len(),
                    forall|i: int| 0 <= i < next@.len() ==> next@[i] == #[trigger] next_generation(cells, w, h)[i],
            {
                let idx = self.get_index(row, column);
                let live = self.live_neighbor_count(row, column);
                let cell = self.cells[idx].next(live);
                proof {
                    lemma_index_in_grid(w as int, h as int, row as int, column as int);
                }
                next.push(cell);
                assert(row * w + column + 1 <= cells.len()) by (nonlinear_arith)
                    requires
                        row < h,
                        column < w,
                        cells.len() == w * h,
                ;
            }
            assert((row + 1) * w == row * w + w) by (nonlinear_arith);
        }
        assert(h * w == w * h) by (nonlinear_arith);
        assert(next@ =~= next_generation(cells, w, h));
        self.cells = next;
    }

    /// The grid as text: one line per row, `◼` for a live cell and `◻` for a
    /// dead one, each line ending in a line break.
    pub fn render(&self) -> (r: String)
        requires
            self.wf(),
        ensures
            r@ == rendered_rows(self@.cells, self@.width, self@.height),
    {
        let mut text = String::new();
        for row in 0..self.height
            invariant
                self.wf(),
                text@ == rendered_rows(self@.cells, self@.width, row as nat),
        {
            let ghost line = line_text(self@.cells, self@.width, row as int);
            for column in 0..self.width
                invariant
                    self.wf(),
                    row < self@.height,
                    line == line_text(self@.cells, self@.width, row as int),
                    text@ == rendered_rows(self@.cells, self@.width, row as nat) + line.take(column as int),
            {
                let idx = self.get_index(row, column);
                let glyph = self.cells[idx].glyph();
                text.append(glyph);
                assert(line.take(column + 1) =~= line.take(column as int) + glyph@);
            }
            let newline = "\n";
            proof {
                reveal_strlit("\n");
                assert(line.take(self@.width as int) =~= line);
            }
            text.append(newline);
        }
        text
    }
}

impl Default for Universe {
    fn default() -> (r: Universe)
        ensures
            r.wf(),
            r@ == (GridView {
                width: DEFAULT_SIDE as nat,
                height: DEFAULT_SIDE as nat,
                cells: seeded((DEFAULT_SIDE * DEFAULT_SIDE) as nat),
            }),
    {
        Self::new()
    }
}

} // verus!
