use game_of_life::grid::GameOfLife;

fn seeded_cells(grid: &GameOfLife) -> Vec<(usize, usize)> {
    let mut live = Vec::new();
    for row in 0..grid.height() {
        for col in 0..grid.width() {
            if grid.is_alive(row, col) {
                live.push((row, col));
            }
        }
    }
    live
}

fn seed_of(width: usize, height: usize) -> Vec<(usize, usize)> {
    let mut grid = GameOfLife::new(width, height);
    grid.starting_position();
    seeded_cells(&grid)
}

#[test]
fn seed_is_placed_around_the_centre() {
    // 10 rows, 8 columns: the centre is (5, 4).
    assert_eq!(seed_of(8, 10), vec![(4, 3), (4, 4), (5, 2), (5, 3), (6, 3)]);
}

#[test]
fn seed_on_odd_sizes_uses_floor_division() {
    // 7 rows, 9 columns: the centre is (3, 4).
    assert_eq!(seed_of(9, 7), vec![(2, 3), (2, 4), (3, 2), (3, 3), (4, 3)]);
}

#[test]
fn seed_on_three_by_three_skips_what_leaves_the_grid() {
    // The centre is (1, 1); the offset (0, -2) would be column -1.
    assert_eq!(seed_of(3, 3), vec![(0, 0), (0, 1), (1, 0), (2, 0)]);
}

#[test]
fn seed_does_not_wrap_around() {
    let mut grid = GameOfLife::new(3, 3);
    grid.starting_position();
    // Column -1 wrapped would be column 2.
    assert!(!grid.is_alive(1, 2));
}

#[test]
fn seed_on_two_by_two() {
    assert_eq!(seed_of(2, 2), vec![(0, 0), (0, 1), (1, 0)]);
}

#[test]
fn seed_on_a_single_cell_sets_nothing() {
    assert_eq!(seed_of(1, 1), vec![]);
}

#[test]
fn seed_on_a_single_row() {
    assert_eq!(seed_of(5, 1), vec![(0, 0), (0, 1)]);
}

#[test]
fn seed_on_a_single_column() {
    assert_eq!(seed_of(1, 5), vec![(1, 0)]);
}

#[test]
fn seed_keeps_live_cells() {
    let mut grid = GameOfLife::new(8, 10);
    grid.toggle_state(0, 0);
    grid.toggle_state(5, 3);
    grid.starting_position();
    assert_eq!(seeded_cells(&grid), vec![(0, 0), (4, 3), (4, 4), (5, 2), (5, 3), (6, 3)]);
}

#[test]
fn seeding_twice_is_seeding_once() {
    let mut grid = GameOfLife::new(8, 10);
    grid.starting_position();
    grid.starting_position();
    assert_eq!(seeded_cells(&grid), vec![(4, 3), (4, 4), (5, 2), (5, 3), (6, 3)]);
}

#[test]
fn seed_grows_as_the_rule_says() {
    let mut grid = GameOfLife::new(8, 10);
    grid.starting_position();
    grid.update();
    assert_eq!(seeded_cells(&grid), vec![(4, 2), (4, 3), (4, 4), (5, 2), (6, 2), (6, 3)]);
    grid.update();
    assert_eq!(
        seeded_cells(&grid),
        vec![(3, 3), (4, 2), (4, 3), (5, 1), (5, 4), (6, 2), (6, 3)]
    );
}

#[test]
fn reset_clears_before_it_seeds() {
    let mut grid = GameOfLife::new(8, 10);
    grid.toggle_state(0, 0);
    grid.toggle_state(9, 7);
    grid.update();
    grid.toggle_state(1, 1);
    grid.reset();
    assert_eq!(seeded_cells(&grid), vec![(4, 3), (4, 4), (5, 2), (5, 3), (6, 3)]);
    assert_eq!(grid.width(), 8);
    assert_eq!(grid.height(), 10);
}
