use game_of_life::{Cell, Universe};

const ALIVE: char = '\u{25FC}';
const DEAD: char = '\u{25FB}';

fn grid(width: u32, height: u32, alive: &[(u32, u32)]) -> Universe {
    let mut cells = vec![Cell::Dead; (width * height) as usize];
    for &(row, column) in alive {
        cells[(row * width + column) as usize] = Cell::Alive;
    }
    Universe::from_cells(width, height, cells).unwrap()
}

fn alive_positions(u: &Universe) -> Vec<(u32, u32)> {
    let mut out = Vec::new();
    for row in 0..u.height() {
        for column in 0..u.width() {
            if u.cells()[u.get_index(row, column)] == Cell::Alive {
                out.push((row, column));
            }
        }
    }
    out
}

#[test]
fn seeding_table_for_four_by_four() {
    let u = Universe::with_size(4, 4).unwrap();
    assert_eq!(u.width(), 4);
    assert_eq!(u.height(), 4);
    assert_eq!(u.cells().len(), 16);
    assert_eq!(u.cells()[0], Cell::Alive);
    assert_eq!(u.cells()[1], Cell::Dead);
    assert_eq!(u.cells()[7], Cell::Alive);
    assert_eq!(u.cells()[9], Cell::Dead);
    let expected: Vec<Cell> = (0..16u32)
        .map(|i| if i % 2 == 0 || i % 7 == 0 { Cell::Alive } else { Cell::Dead })
        .collect();
    assert_eq!(u.cells(), &expected[..]);
    assert_eq!(u.cells()[14], Cell::Alive);
    assert_eq!(u.cells()[15], Cell::Dead);
}

#[test]
fn default_grid_is_sixty_four_square() {
    let u = Universe::new();
    assert_eq!(u.width(), 64);
    assert_eq!(u.height(), 64);
    assert_eq!(u.cells().len(), 4096);
    assert_eq!(u.cells()[21], Cell::Alive);
    assert_eq!(u.cells()[23], Cell::Dead);
    let d = Universe::default();
    assert_eq!(d.cells(), u.cells());
}

#[test]
fn empty_sides_are_rejected() {
    assert!(Universe::with_size(0, 4).is_none());
    assert!(Universe::with_size(4, 0).is_none());
    assert!(Universe::with_size(0, 0).is_none());
    assert!(Universe::from_cells(0, 1, vec![]).is_none());
    assert!(Universe::from_cells(1, 0, vec![]).is_none());
}

#[test]
fn oversized_grid_is_rejected() {
    assert!(Universe::with_size(65536, 65536).is_none());
    assert!(Universe::from_cells(65536, 65536, vec![Cell::Dead]).is_none());
}

#[test]
fn cell_count_must_match_size() {
    assert!(Universe::from_cells(2, 2, vec![Cell::Dead; 3]).is_none());
    assert!(Universe::from_cells(2, 2, vec![Cell::Dead; 5]).is_none());
    assert!(Universe::from_cells(2, 2, vec![Cell::Dead; 4]).is_some());
}

#[test]
fn index_is_row_major() {
    let u = Universe::with_size(5, 3).unwrap();
    assert_eq!(u.get_index(0, 0), 0);
    assert_eq!(u.get_index(0, 4), 4);
    assert_eq!(u.get_index(1, 0), 5);
    assert_eq!(u.get_index(2, 3), 13);
}

#[test]
fn corner_count_matches_wrapped_pattern() {
    // Around the corner (0, 0), the wrapped neighbours (3, 3), (3, 0), (0, 3)
    // are alive.
    let corner = grid(4, 4, &[(3, 3), (3, 0), (0, 3)]);
    // The same local pattern placed around the interior cell (1, 1).
    let interior = grid(4, 4, &[(0, 0), (0, 1), (1, 0)]);
    assert_eq!(corner.live_neighbor_count(0, 0), 3);
    assert_eq!(interior.live_neighbor_count(1, 1), 3);
    // Opposite corner wraps the other way.
    let far = grid(4, 4, &[(0, 0), (0, 3), (3, 0)]);
    assert_eq!(far.live_neighbor_count(3, 3), 3);
    let far_interior = grid(4, 4, &[(3, 3), (3, 2), (2, 3)]);
    assert_eq!(far_interior.live_neighbor_count(2, 2), 3);
}

#[test]
fn full_grid_counts_eight() {
    let u = Universe::from_cells(3, 3, vec![Cell::Alive; 9]).unwrap();
    for row in 0..3 {
        for column in 0..3 {
            assert_eq!(u.live_neighbor_count(row, column), 8);
        }
    }
    let small = Universe::from_cells(2, 2, vec![Cell::Alive; 4]).unwrap();
    assert_eq!(small.live_neighbor_count(0, 0), 8);
    assert_eq!(small.live_neighbor_count(1, 1), 8);
}

#[test]
fn single_cell_grid_counts_its_wrapped_copies() {
    let u = Universe::from_cells(1, 1, vec![Cell::Alive]).unwrap();
    assert_eq!(u.live_neighbor_count(0, 0), 5);
    let d = Universe::from_cells(1, 1, vec![Cell::Dead]).unwrap();
    assert_eq!(d.live_neighbor_count(0, 0), 0);
}

#[test]
fn counts_stay_within_eight_on_seeded_grid() {
    let u = Universe::with_size(7, 5).unwrap();
    for row in 0..5 {
        for column in 0..7 {
            assert!(u.live_neighbor_count(row, column) <= 8);
        }
    }
    assert_eq!(u.live_neighbor_count(0, 0), 5);
}

#[test]
fn dead_grid_stays_dead() {
    let mut u = grid(6, 5, &[]);
    u.tick();
    assert!(u.cells().iter().all(|&c| c == Cell::Dead));
    assert_eq!(u.width(), 6);
    assert_eq!(u.height(), 5);
}

#[test]
fn lonely_cell_dies() {
    let mut u = grid(5, 5, &[(2, 2)]);
    assert_eq!(u.live_neighbor_count(2, 2), 0);
    u.tick();
    assert!(alive_positions(&u).is_empty());
}

#[test]
fn block_is_stable() {
    let block = [(2, 2), (2, 3), (3, 2), (3, 3)];
    let mut u = grid(6, 6, &block);
    for &(row, column) in &block {
        assert_eq!(u.live_neighbor_count(row, column), 3);
    }
    u.tick();
    assert_eq!(alive_positions(&u), block.to_vec());
    u.tick();
    assert_eq!(alive_positions(&u), block.to_vec());
}

#[test]
fn blinker_oscillates() {
    let mut u = grid(5, 5, &[(2, 1), (2, 2), (2, 3)]);
    u.tick();
    assert_eq!(alive_positions(&u), vec![(1, 2), (2, 2), (3, 2)]);
    u.tick();
    assert_eq!(alive_positions(&u), vec![(2, 1), (2, 2), (2, 3)]);
}

#[test]
fn overcrowded_cell_dies_and_birth_on_three() {
    // (1, 1) has four live neighbours; (0, 0) is dead with exactly three.
    let mut u = grid(5, 5, &[(0, 1), (1, 0), (1, 1), (1, 2), (2, 1)]);
    assert_eq!(u.live_neighbor_count(1, 1), 4);
    assert_eq!(u.live_neighbor_count(0, 0), 3);
    u.tick();
    let cells = u.cells();
    assert_eq!(cells[u.get_index(1, 1)], Cell::Dead);
    assert_eq!(cells[u.get_index(0, 0)], Cell::Alive);
}

#[test]
fn identical_seeds_give_identical_histories() {
    let mut a = Universe::new();
    let mut b = Universe::new();
    for _ in 0..3 {
        a.tick();
        b.tick();
    }
    assert_eq!(a.cells(), b.cells());
    let mut c = Universe::with_size(10, 8).unwrap();
    let mut d = Universe::with_size(10, 8).unwrap();
    for _ in 0..5 {
        c.tick();
        d.tick();
    }
    assert_eq!(c.cells(), d.cells());
}

#[test]
fn tick_changes_seeded_grid() {
    let mut u = Universe::with_size(4, 4).unwrap();
    let before = u.cells().to_vec();
    u.tick();
    assert_ne!(u.cells(), &before[..]);
    assert_eq!(u.cells().len(), 16);
}

#[test]
fn render_exact_text() {
    let u = grid(3, 2, &[(0, 0), (1, 2)]);
    let expected = format!("{ALIVE}{DEAD}{DEAD}\n{DEAD}{DEAD}{ALIVE}\n");
    assert_eq!(u.render(), expected);
}

#[test]
fn render_has_height_lines_of_width_glyphs() {
    let u = Universe::new();
    let text = u.render();
    assert!(text.ends_with('\n'));
    let lines: Vec<&str> = text.split_terminator('\n').collect();
    assert_eq!(lines.len(), 64);
    for line in lines {
        assert_eq!(line.chars().count(), 64);
        assert!(line.chars().all(|c| c == ALIVE || c == DEAD));
    }
    let v = Universe::with_size(5, 3).unwrap();
    let text = v.render();
    assert_eq!(text.chars().count(), 3 * 6);
    assert_eq!(text.lines().count(), 3);
}

#[test]
fn cell_counts_and_rule() {
    assert_eq!(Cell::Alive.as_count(), 1);
    assert_eq!(Cell::Dead.as_count(), 0);
    for n in 0..=8u8 {
        let alive_next = if n == 2 || n == 3 { Cell::Alive } else { Cell::Dead };
        let dead_next = if n == 3 { Cell::Alive } else { Cell::Dead };
        assert_eq!(Cell::Alive.next(n), alive_next);
        assert_eq!(Cell::Dead.next(n), dead_next);
    }
    assert_eq!(Cell::Alive.glyph(), "\u{25FC}");
    assert_eq!(Cell::Dead.glyph(), "\u{25FB}");
}
