use vstd::prelude::*;
use vstd::arithmetic::div_mod::lemma_mod_add_multiples_vanish;
use crate::cell::{Cell, count_of, glyph_of};
use crate::universe::{
    flat_index, generations, grid_ok, lemma_index_in_grid, line_text, live_neighbors,
    next_generation, rendered_rows, seeded, GridView,
};

verus! {

/// What the cell at `(i, j)` of the plane tiled with copies of the grid adds
/// to a neighbour sum; `i` and `j` may be any integers.
pub open spec fn tiled_count(cells: Seq<Cell>, width: nat, height: nat, i: int, j: int) -> nat {
    count_of(cells[flat_index(width as int, i % (height as int), j % (width as int))])
}

/// The number of live cells among the eight cells around `(row, column)` in
/// the plane tiled with copies of the grid.
pub open spec fn plane_neighbors(cells: Seq<Cell>, width: nat, height: nat, row: int, column: int) -> nat {
    tiled_count(cells, width, height, row - 1, column - 1)
        + tiled_count(cells, width, height, row - 1, column)
        + tiled_count(cells, width, height, row - 1, column + 1)
        + tiled_count(cells, width, height, row, column - 1)
        + tiled_count(cells, width, height, row, column + 1)
        + tiled_count(cells, width, height, row + 1, column - 1)
        + tiled_count(cells, width, height, row + 1, column)
        + tiled_count(cells, width, height, row + 1, column + 1)
}

/// Every position reduced modulo the sides lies inside the grid.
proof fn lemma_wrapped_in_grid(width: int, height: int)
    requires
        width > 0,
        height > 0,
    ensures
        forall|i: int, j: int| 0 <= #[trigger] flat_index(width, i % height, j % width) < width * height,
{
    assert forall|i: int, j: int| 0 <= #[trigger] flat_index(width, i % height, j % width) < width * height by {
        lemma_index_in_grid(width, height, i % height, j % width);
    }
}

/// The live-neighbour count of every cell lies between 0 and 8.
pub proof fn lemma_neighbor_count_at_most_eight(
    cells: Seq<Cell>,
    width: nat,
    height: nat,
    row: int,
    column: int,
)
    requires
        grid_ok(width, height, cells),
        0 <= row < height,
        0 <= column < width,
    ensures
        0 <= live_neighbors(cells, width, height, row, column) <= 8,
{
}

/// On a grid with at least two rows and two columns, the live-neighbour
/// count of any cell, corners and edges included, is the number of live
/// cells around it in the plane tiled with copies of the grid.
pub proof fn lemma_count_matches_tiled_plane(
    cells: Seq<Cell>,
    width: nat,
    height: nat,
    row: int,
    column: int,
)
    requires
        grid_ok(width, height, cells),
        width >= 2,
        height >= 2,
        0 <= row < height,
        0 <= column < width,
    ensures
        live_neighbors(cells, width, height, row, column) == plane_neighbors(cells, width, height, row, column),
{
    lemma_mod_add_multiples_vanish(row - 1, height as int);
    lemma_mod_add_multiples_vanish(column - 1, width as int);
    assert(row + (height - 1) == height + (row - 1));
    assert(column + (width - 1) == width + (column - 1));
}

/// A grid with no live cell has none in the next generation either.
pub proof fn lemma_dead_grid_stays_dead(cells: Seq<Cell>, width: nat, height: nat)
    requires
        grid_ok(width, height, cells),
        forall|i: int| 0 <= i < cells.len() ==> cells[i] == Cell::Dead,
    ensures
        forall|i: int| 0 <= i < cells.len() ==> #[trigger] next_generation(cells, width, height)[i] == Cell::Dead,
{
    lemma_wrapped_in_grid(width as int, height as int);
}

/// A live cell none of whose neighbours is alive dies in the next generation.
pub proof fn lemma_lonely_cell_dies(cells: Seq<Cell>, width: nat, height: nat, row: int, column: int)
    requires
        grid_ok(width, height, cells),
        0 <= row < height,
        0 <= column < width,
        cells[flat_index(width as int, row, column)] == Cell::Alive,
        live_neighbors(cells, width, height, row, column) == 0,
    ensures
        next_generation(cells, width, height)[flat_index(width as int, row, column)] == Cell::Dead,
{
    lemma_index_in_grid(width as int, height as int, row, column);
}

/// Two grids of the same size, both built with the initial pattern, have the
/// same cells after any number of generations.
pub proof fn lemma_seeded_grids_agree(a: GridView, b: GridView, n: nat)
    requires
        a.width == b.width,
        a.height == b.height,
        a.cells == seeded(a.width * a.height),
        b.cells == seeded(b.width * b.height),
    ensures
        generations(a.cells, a.width, a.height, n) == generations(b.cells, b.width, b.height, n),
{
}

/// The rendering of the first `n` rows has `n` lines of `width` glyphs, each
/// line followed by a line break.
proof fn lemma_rendered_rows_shape(cells: Seq<Cell>, width: nat, n: nat)
    ensures
        rendered_rows(cells, width, n).len() == n * (width + 1),
        forall|r: int, c: int|
            0 <= r < n && 0 <= c < width ==> #[trigger] rendered_rows(cells, width, n)[r * (width + 1) + c]
                == glyph_of(cells[flat_index(width as int, r, c)]),
        forall|r: int|
            0 <= r < n ==> #[trigger] rendered_rows(cells, width, n)[r * (width + 1) + width] == '\n',
    decreases n,
{
    if n > 0 {
        let m = (n - 1) as nat;
        lemma_rendered_rows_shape(cells, width, m);
        let prev = rendered_rows(cells, width, m);
        let line = line_text(cells, width, m as int);
        let all = rendered_rows(cells, width, n);
        assert(all == prev + line + seq!['\n']);
        assert(m * (width + 1) + (width + 1) == n * (width + 1)) by (nonlinear_arith)
            requires
                m + 1 == n,
        ;
        assert forall|r: int, c: int| 0 <= r < n && 0 <= c < width implies #[trigger] all[r * (width + 1) + c]
            == glyph_of(cells[flat_index(width as int, r, c)]) by {
            if r < m {
                assert(r * (width + 1) + c < m * (width + 1)) by (nonlinear_arith)
                    requires
                        r < m,
                        0 <= c < width,
                ;
                assert(all[r * (width + 1) + c] == prev[r * (width + 1) + c]);
            } else {
                assert(r * (width + 1) + c == m * (width + 1) + c);
                assert(all[r * (width + 1) + c] == line[c]);
            }
        }
        assert forall|r: int| 0 <= r < n implies #[trigger] all[r * (width + 1) + width] == '\n' by {
            if r < m {
                assert(r * (width + 1) + width < m * (width + 1)) by (nonlinear_arith)
                    requires
                        r < m,
                ;
                assert(all[r * (width + 1) + width] == prev[r * (width + 1) + width]);
            } else {
                assert(r * (width + 1) + width == m * (width + 1) + width);
            }
        }
    }
}

/// The rendering of a grid has `height` lines of `width` glyphs each: the
/// character at column `c` of line `r` is the glyph of cell `(r, c)`, each
/// line ends in a line break, and no other character occurs.
pub proof fn lemma_render_shape(cells: Seq<Cell>, width: nat, height: nat)
    requires
        grid_ok(width, height, cells),
    ensures
        rendered_rows(cells, width, height).len() == height * (width + 1),
        forall|r: int, c: int|
            0 <= r < height && 0 <= c < width ==> #[trigger] rendered_rows(cells, width, height)[r * (width + 1) + c]
                == glyph_of(cells[flat_index(width as int, r, c)]),
        forall|r: int|
            0 <= r < height ==> #[trigger] rendered_rows(cells, width, height)[r * (width + 1) + width] == '\n',
        forall|k: int|
            0 <= k < rendered_rows(cells, width, height).len() ==> {
                let ch = #[trigger] rendered_rows(cells, width, height)[k];
                ch == '\u{25FC}' || ch == '\u{25FB}' || ch == '\n'
            },
{
    lemma_rendered_rows_shape(cells, width, height);
    let text = rendered_rows(cells, width, height);
    let stride = width + 1;
    assert forall|k: int| 0 <= k < text.len() implies {
        let ch = #[trigger] text[k];
        ch == '\u{25FC}' || ch == '\u{25FB}' || ch == '\n'
    } by {
        let r = k / stride as int;
        let c = k % stride as int;
        assert(k == r * stride + c && 0 <= c < stride) by (nonlinear_arith)
            requires
                r == k / stride as int,
                c == k % stride as int,
                stride > 0,
                k >= 0,
        ;
        assert(0 <= r < height) by (nonlinear_arith)
            requires
                k == r * stride + c,
                0 <= c < stride,
                0 <= k < height * stride,
        ;
        if c < width {
            assert(text[r * (width + 1) + c] == glyph_of(cells[flat_index(width as int, r, c)]));
        } else {
            assert(text[r * (width + 1) + width] == '\n');
        }
    }
}

} // verus!
