use game_of_life::grid::GameOfLife;

const AROUND: [(usize, usize); 8] =
    [(1, 1), (1, 2), (1, 3), (2, 1), (2, 3), (3, 1), (3, 2), (3, 3)];

fn field_with(width: usize, height: usize, live: &[(usize, usize)]) -> GameOfLife {
    let mut grid = GameOfLife::new(width, height);
    for &(row, col) in live {
        grid.toggle_state(row, col);
    }
    grid
}

fn live_in(grid: &GameOfLife) -> Vec<(usize, usize)> {
    let mut live = Vec::new();
    for row in 0..grid.height() {
        for col in 0..grid.width() {
            if grid.is_alive(row, col) {
                live.push((row, col));
            }
        }
    }
    live
}

/// A 5 by 5 grid whose centre cell has the given state and the given number of
/// live neighbours.
fn centre_with(alive: bool, neighbors: usize) -> GameOfLife {
    let mut grid = field_with(5, 5, &AROUND[..neighbors]);
    if alive {
        grid.toggle_state(2, 2);
    }
    grid
}

#[test]
fn live_cell_survives_with_two_or_three_neighbors() {
    for neighbors in 0..=8 {
        let mut grid = centre_with(true, neighbors);
        assert_eq!(grid.count_neighbors(2, 2), neighbors);
        assert_eq!(grid.compute_next_states(2, 2), neighbors == 2 || neighbors == 3);
        grid.update();
        assert_eq!(grid.is_alive(2, 2), neighbors == 2 || neighbors == 3);
    }
}

#[test]
fn dead_cell_is_born_with_exactly_three_neighbors() {
    for neighbors in 0..=8 {
        let mut grid = centre_with(false, neighbors);
        assert_eq!(grid.count_neighbors(2, 2), neighbors);
        assert_eq!(grid.compute_next_states(2, 2), neighbors == 3);
        grid.update();
        assert_eq!(grid.is_alive(2, 2), neighbors == 3);
    }
}

#[test]
fn dead_grid_stays_dead() {
    let mut grid = GameOfLife::new(6, 4);
    for _ in 0..10 {
        grid.update();
        assert_eq!(live_in(&grid), vec![]);
    }
    assert_eq!(grid.width(), 6);
    assert_eq!(grid.height(), 4);
}

#[test]
fn block_is_a_still_life() {
    let block = vec![(2, 2), (2, 3), (3, 2), (3, 3)];
    let mut grid = field_with(6, 6, &block);
    for &(row, col) in block.iter() {
        assert_eq!(grid.count_neighbors(row, col), 3);
    }
    grid.update();
    assert_eq!(live_in(&grid), block);
    grid.update();
    assert_eq!(live_in(&grid), block);
}

#[test]
fn block_over_the_corner_is_a_still_life() {
    let block = vec![(0, 0), (0, 5), (5, 0), (5, 5)];
    let mut grid = field_with(6, 6, &block);
    grid.update();
    assert_eq!(live_in(&grid), block);
}

#[test]
fn block_on_the_smallest_torus_that_holds_it_still() {
    let block = vec![(0, 0), (0, 1), (1, 0), (1, 1)];
    let mut grid = field_with(3, 3, &block);
    grid.update();
    assert_eq!(live_in(&grid), block);
}

#[test]
fn full_two_by_two_grid_dies() {
    let mut grid = field_with(2, 2, &[(0, 0), (0, 1), (1, 0), (1, 1)]);
    grid.update();
    assert_eq!(live_in(&grid), vec![]);
}

#[test]
fn single_live_cell_on_a_single_cell_grid_dies() {
    let mut grid = field_with(1, 1, &[(0, 0)]);
    grid.update();
    assert_eq!(live_in(&grid), vec![]);
}

#[test]
fn blinker_has_period_two() {
    let mut grid = field_with(5, 4, &[(1, 1), (1, 2), (1, 3)]);
    grid.update();
    assert_eq!(live_in(&grid), vec![(0, 2), (1, 2), (2, 2)]);
    grid.update();
    assert_eq!(live_in(&grid), vec![(1, 1), (1, 2), (1, 3)]);
}

#[test]
fn glider_moves_one_cell_diagonally_in_four_steps() {
    let glider = vec![(0, 1), (1, 2), (2, 0), (2, 1), (2, 2)];
    let mut grid = field_with(20, 20, &glider);
    grid.update();
    assert_eq!(live_in(&grid), vec![(1, 0), (1, 2), (2, 1), (2, 2), (3, 1)]);
    grid.update();
    assert_eq!(live_in(&grid), vec![(1, 2), (2, 0), (2, 2), (3, 1), (3, 2)]);
    grid.update();
    assert_eq!(live_in(&grid), vec![(1, 1), (2, 2), (2, 3), (3, 1), (3, 2)]);
    grid.update();
    let moved: Vec<(usize, usize)> = glider.iter().map(|&(row, col)| (row + 1, col + 1)).collect();
    assert_eq!(live_in(&grid), moved);
    assert_eq!(live_in(&grid), vec![(1, 2), (2, 3), (3, 1), (3, 2), (3, 3)]);
}

#[test]
fn glider_moves_on_the_smallest_grid_that_carries_it() {
    let mut grid = field_with(5, 5, &[(0, 1), (1, 2), (2, 0), (2, 1), (2, 2)]);
    for _ in 0..4 {
        grid.update();
    }
    assert_eq!(live_in(&grid), vec![(1, 2), (2, 3), (3, 1), (3, 2), (3, 3)]);
}

#[test]
fn glider_keeps_moving() {
    let glider = vec![(0, 1), (1, 2), (2, 0), (2, 1), (2, 2)];
    let mut grid = field_with(20, 20, &glider);
    for _ in 0..12 {
        grid.update();
    }
    let moved: Vec<(usize, usize)> = glider.iter().map(|&(row, col)| (row + 3, col + 3)).collect();
    assert_eq!(live_in(&grid), moved);
}

#[test]
fn glider_crosses_the_corner() {
    let mut grid = field_with(20, 20, &[(17, 18), (18, 19), (19, 17), (19, 18), (19, 19)]);
    for _ in 0..4 {
        grid.update();
    }
    assert_eq!(live_in(&grid), vec![(0, 0), (0, 18), (0, 19), (18, 19), (19, 0)]);
}

#[test]
fn update_reads_only_the_previous_generation() {
    // Updated in place, row by row, the blinker would not come out as a column.
    let mut grid = field_with(5, 5, &[(2, 1), (2, 2), (2, 3)]);
    grid.update();
    assert_eq!(live_in(&grid), vec![(1, 2), (2, 2), (3, 2)]);
}
