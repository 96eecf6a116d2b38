use vstd::prelude::*;

verus! {

/// The state of one square of the grid.
#[derive(Clone, Copy, Debug, PartialEq, Eq, Structural)]
pub enum Cell {
    Dead,
    Alive,
}

/// 1 for a live cell, 0 for a dead one: what a cell adds to a neighbour sum.
pub open spec fn count_of(cell: Cell) -> nat {
    match cell {
        Cell::Dead => 0,
        Cell::Alive => 1,
    }
}

/// The state a cell takes in the next generation, given how many of its
/// neighbours are alive now.
pub open spec fn next_state(cell: Cell, live_neighbors: int) -> Cell {
    match cell {
        Cell::Alive => if live_neighbors == 2 || live_neighbors == 3 {
            Cell::Alive
        } else {
            Cell::Dead
        },
        Cell::Dead => if live_neighbors == 3 {
            Cell::Alive
        } else {
            Cell::Dead
        },
    }
}

/// The glyph that stands for a cell in the text rendering.
pub open spec fn glyph_of(cell: Cell) -> char {
    match cell {
        Cell::Dead => '\u{25FB}',
        Cell::Alive => '\u{25FC}',
    }
}

impl Cell {
    /// The cell as a number: 1 when alive, 0 when dead.
    pub fn as_count(self) -> (r: u8)
        ensures
            r as nat == count_of(self),
    {
        match self {
            Cell::Dead => 0,
            Cell::Alive => 1,
        }
    }

    /// Applies the transition rule to this cell.
    pub fn next(self, live_neighbors: u8) -> (r: Cell)
        ensures
            r == next_state(self, live_neighbors as int),
    {
        match (self, live_neighbors) {
            (Cell::Alive, x) if x < 2 => Cell::Dead,
            (Cell::Alive, 2) | (Cell::Alive, 3) => Cell::Alive,
            (Cell::Alive, x) if x > 3 => Cell::Dead,
            (Cell::Dead, 3) => Cell::Alive,
            (otherwise, _) => otherwise,
        }
    }

    /// The one-glyph text that stands for this cell.
    pub fn glyph(self) -> (r: &'static str)
        ensures
            r@ == seq![glyph_of(self)],
    {
        proof {
            reveal_strlit("\u{25FB}");
            reveal_strlit("\u{25FC}");
        }
        match self {
            Cell::Dead => "\u{25FB}",
            Cell::Alive => "\u{25FC}",
        }
    }
}

} // verus!
