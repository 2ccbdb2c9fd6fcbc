use game_of_life::cell::Cell;
use game_of_life::cell::CellStatus;
use game_of_life::universe::setup_timer;
use game_of_life::universe::tick;
use game_of_life::universe::Universe;
use game_of_life::universe::UniverseTimer;

/// Builds a universe whose statuses are given row by row, `true` for alive.
fn universe_from(rows: &[&[bool]]) -> Universe {
    let height = rows.len() as u32;
    let width = rows[0].len() as u32;
    let mut cells: Vec<Vec<Cell>> = Vec::new();
    for (y, row) in rows.iter().enumerate() {
        assert_eq!(row.len() as u32, width);
        let mut row_vec: Vec<Cell> = Vec::new();
        for (x, alive) in row.iter().enumerate() {
            let status = if *alive { CellStatus::Alive } else { CellStatus::Dead };
            row_vec.push(Cell::new(x as u32, y as u32, status));
        }
        cells.push(row_vec);
    }
    Universe { width, height, cells, generation_time: 200 }
}

/// Reads the statuses back out as the same row-by-row shape.
fn statuses(u: &Universe) -> Vec<Vec<bool>> {
    let mut rows = Vec::new();
    for y in 0..u.height {
        let mut row = Vec::new();
        for x in 0..u.width {
            let cell = u.get_cell(x, y).unwrap();
            row.push(cell.status == CellStatus::Alive);
        }
        rows.push(row);
    }
    rows
}

#[test]
fn init_builds_full_grid() {
    let u = Universe::init(7, 4);
    assert_eq!(u.width, 7);
    assert_eq!(u.height, 4);
    assert_eq!(u.generation_time, 200);
    assert_eq!(u.cells.len(), 4);
    for y in 0..4u32 {
        assert_eq!(u.cells[y as usize].len(), 7);
        for x in 0..7u32 {
            let cell = u.get_cell(x, y).unwrap();
            assert_eq!(cell.x, x);
            assert_eq!(cell.y, y);
        }
    }
}

#[test]
fn get_cell_rejects_out_of_range() {
    let u = universe_from(&[&[true, false], &[false, true], &[false, false]]);
    assert!(u.get_cell(2, 0).is_none());
    assert!(u.get_cell(0, 3).is_none());
    assert!(u.get_cell(2, 3).is_none());
    assert!(u.get_cell(u32::MAX, u32::MAX).is_none());
}

#[test]
fn get_cell_returns_stored_cell() {
    let u = universe_from(&[&[true, false], &[false, true], &[false, false]]);
    let c = u.get_cell(1, 1).unwrap();
    assert_eq!(c.x, 1);
    assert_eq!(c.y, 1);
    assert_eq!(c.status, CellStatus::Alive);
    let d = u.get_cell(1, 2).unwrap();
    assert_eq!(d.status, CellStatus::Dead);
}

#[test]
fn neighbor_count_wraps_to_opposite_corner() {
    // only the far corner is alive; it is a diagonal neighbor of the origin
    let u = universe_from(&[
        &[false, false, false],
        &[false, false, false],
        &[false, false, true],
    ]);
    assert_eq!(u.live_neighbor(0, 0), 1);
}

#[test]
fn neighbor_count_excludes_self_and_stays_within_bounds() {
    let all_alive = universe_from(&[
        &[true, true, true],
        &[true, true, true],
        &[true, true, true],
    ]);
    // 8, not 9: the center's own status is not counted
    assert_eq!(all_alive.live_neighbor(1, 1), 8);
    let all_dead = universe_from(&[
        &[false, false, false],
        &[false, false, false],
        &[false, false, false],
    ]);
    assert_eq!(all_dead.live_neighbor(1, 1), 0);
}

#[test]
fn live_cell_survives_with_two_or_three_neighbors() {
    // the center of a horizontal line has 2 live neighbors
    let mut line = universe_from(&[
        &[false, false, false, false, false],
        &[false, false, false, false, false],
        &[false, true, true, true, false],
        &[false, false, false, false, false],
        &[false, false, false, false, false],
    ]);
    assert_eq!(line.live_neighbor(2, 2), 2);
    line.next_generation();
    assert_eq!(line.get_cell(2, 2).unwrap().status, CellStatus::Alive);

    // every cell of a 2x2 block has 3 live neighbors
    let mut block = universe_from(&[
        &[false, false, false, false],
        &[false, true, true, false],
        &[false, true, true, false],
        &[false, false, false, false],
    ]);
    assert_eq!(block.live_neighbor(1, 1), 3);
    block.next_generation();
    assert_eq!(block.get_cell(1, 1).unwrap().status, CellStatus::Alive);
}

#[test]
fn live_cell_dies_outside_two_or_three_neighbors() {
    // a lone live cell has 0 neighbors and dies
    let mut lone = universe_from(&[
        &[false, false, false, false],
        &[false, true, false, false],
        &[false, false, false, false],
        &[false, false, false, false],
    ]);
    lone.next_generation();
    assert_eq!(lone.get_cell(1, 1).unwrap().status, CellStatus::Dead);

    // the center of a plus sign has 4 live neighbors and dies
    let mut plus = universe_from(&[
        &[false, false, false, false, false],
        &[false, false, true, false, false],
        &[false, true, true, true, false],
        &[false, false, true, false, false],
        &[false, false, false, false, false],
    ]);
    assert_eq!(plus.live_neighbor(2, 2), 4);
    plus.next_generation();
    assert_eq!(plus.get_cell(2, 2).unwrap().status, CellStatus::Dead);
}

#[test]
fn dead_cell_with_three_neighbors_comes_alive() {
    // (2, 1) is dead with exactly the 3 line cells as neighbors
    let mut line = universe_from(&[
        &[false, false, false, false, false],
        &[false, false, false, false, false],
        &[false, true, true, true, false],
        &[false, false, false, false, false],
        &[false, false, false, false, false],
    ]);
    assert_eq!(line.get_cell(2, 1).unwrap().status, CellStatus::Dead);
    assert_eq!(line.live_neighbor(2, 1), 3);
    line.next_generation();
    assert_eq!(line.get_cell(2, 1).unwrap().status, CellStatus::Alive);
}

#[test]
fn dead_cell_without_three_neighbors_stays_dead() {
    let mut u = universe_from(&[
        &[false, false, false, false, false],
        &[false, false, false, false, false],
        &[false, true, true, true, false],
        &[false, false, false, false, false],
        &[false, false, false, false, false],
    ]);
    // (0, 0) has no live neighbor and stays dead
    assert_eq!(u.live_neighbor(0, 0), 0);
    // (1, 1) has 2 live neighbors and stays dead
    assert_eq!(u.live_neighbor(1, 1), 2);
    u.next_generation();
    assert_eq!(u.get_cell(0, 0).unwrap().status, CellStatus::Dead);
    assert_eq!(u.get_cell(1, 1).unwrap().status, CellStatus::Dead);
}

#[test]
fn next_generation_preserves_dimensions() {
    let mut u = Universe::init(6, 5);
    u.next_generation();
    assert_eq!(u.width, 6);
    assert_eq!(u.height, 5);
    assert_eq!(u.cells.len(), 5);
    for row in &u.cells {
        assert_eq!(row.len(), 6);
    }
    // the cells still carry the coordinates of their slots
    for y in 0..5u32 {
        for x in 0..6u32 {
            let cell = u.get_cell(x, y).unwrap();
            assert_eq!((cell.x, cell.y), (x, y));
        }
    }
}

#[test]
fn block_is_a_still_life() {
    let mut u = universe_from(&[
        &[false, false, false, false, false],
        &[false, true, true, false, false],
        &[false, true, true, false, false],
        &[false, false, false, false, false],
        &[false, false, false, false, false],
    ]);
    let before = statuses(&u);
    u.next_generation();
    assert_eq!(statuses(&u), before);
}

#[test]
fn blinker_oscillates() {
    let horizontal = [
        [false, false, false, false, false],
        [false, false, false, false, false],
        [false, true, true, true, false],
        [false, false, false, false, false],
        [false, false, false, false, false],
    ];
    let vertical = [
        [false, false, false, false, false],
        [false, false, true, false, false],
        [false, false, true, false, false],
        [false, false, true, false, false],
        [false, false, false, false, false],
    ];
    let mut u = universe_from(&[
        &horizontal[0], &horizontal[1], &horizontal[2], &horizontal[3], &horizontal[4],
    ]);
    u.next_generation();
    let want_vertical: Vec<Vec<bool>> = vertical.iter().map(|r| r.to_vec()).collect();
    assert_eq!(statuses(&u), want_vertical);
    u.next_generation();
    let want_horizontal: Vec<Vec<bool>> = horizontal.iter().map(|r| r.to_vec()).collect();
    assert_eq!(statuses(&u), want_horizontal);
}

#[test]
fn tick_below_interval_changes_nothing() {
    let mut u = universe_from(&[
        &[false, false, false, false, false],
        &[false, false, false, false, false],
        &[false, true, true, true, false],
        &[false, false, false, false, false],
        &[false, false, false, false, false],
    ]);
    let before = statuses(&u);
    let mut timer = UniverseTimer::new(200);
    let fired = tick(&mut u, &mut timer, 199);
    assert!(!fired);
    assert_eq!(timer.elapsed, 199);
    assert_eq!(statuses(&u), before);
}

#[test]
fn tick_reaching_interval_advances_exactly_one_generation() {
    let mut u = universe_from(&[
        &[false, false, false, false, false],
        &[false, false, false, false, false],
        &[false, true, true, true, false],
        &[false, false, false, false, false],
        &[false, false, false, false, false],
    ]);
    let mut expected = universe_from(&[
        &[false, false, false, false, false],
        &[false, false, false, false, false],
        &[false, true, true, true, false],
        &[false, false, false, false, false],
        &[false, false, false, false, false],
    ]);
    expected.next_generation();

    let mut timer = UniverseTimer::new(200);
    let fired = tick(&mut u, &mut timer, 150);
    assert!(!fired);
    let fired = tick(&mut u, &mut timer, 60);
    assert!(fired);
    // one generation, not two, and the remainder is carried
    assert_eq!(statuses(&u), statuses(&expected));
    assert_eq!(timer.elapsed, 10);
}

#[test]
fn tick_with_a_large_delta_advances_once_per_call() {
    let mut u = universe_from(&[
        &[false, false, false, false, false],
        &[false, false, false, false, false],
        &[false, true, true, true, false],
        &[false, false, false, false, false],
        &[false, false, false, false, false],
    ]);
    let mut expected = universe_from(&[
        &[false, false, false, false, false],
        &[false, false, false, false, false],
        &[false, true, true, true, false],
        &[false, false, false, false, false],
        &[false, false, false, false, false],
    ]);
    expected.next_generation();

    let mut timer = UniverseTimer::new(200);
    let fired = tick(&mut u, &mut timer, 1000);
    assert!(fired);
    assert_eq!(statuses(&u), statuses(&expected));
    assert_eq!(timer.elapsed, 0);
}

#[test]
fn setup_timer_uses_the_configured_interval() {
    let u = universe_from(&[&[false, true], &[true, false]]);
    let timer = setup_timer(&u);
    assert_eq!(timer.interval, 200);
    assert_eq!(timer.elapsed, 0);
}

#[test]
fn timer_new_starts_at_zero() {
    let t = UniverseTimer::new(42);
    assert_eq!(t.interval, 42);
    assert_eq!(t.elapsed, 0);
}
