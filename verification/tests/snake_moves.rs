use rusnet::game::{ConfigError, Direction, Grid, Segment, Snake, TickOutcome};

const STEP: u64 = 100;
const TURN: u64 = 40;

fn cell(x: u32, y: u32) -> Segment {
    Segment { x, y }
}

fn fresh(n: u32) -> (Snake, Grid) {
    (Snake::new(n, STEP, TURN, 0).unwrap(), Grid::new(n))
}

fn has_no_duplicates(cells: &[Segment]) -> bool {
    for i in 0..cells.len() {
        for j in 0..i {
            if cells[i] == cells[j] {
                return false;
            }
        }
    }
    true
}

#[test]
fn new_snake_has_two_cells_and_heads_up() {
    let (snake, _) = fresh(10);
    assert_eq!(snake.cells(), vec![cell(5, 6), cell(5, 7)]);
    assert_eq!(snake.len(), 2);
    assert_eq!(snake.head(), cell(5, 6));
    assert_eq!(snake.direction(), Direction::Up);
    assert_eq!(snake.last_tail(), cell(5, 8));
    assert_eq!(snake.last_step_time(), 0);
    assert!(snake.pending().is_empty());
    assert!(snake.is_alive());
}

#[test]
fn new_snake_on_the_smallest_grid_lies_in_the_interior() {
    let snake = Snake::new(5, 1, 1, 7).unwrap();
    assert_eq!(snake.cells(), vec![cell(2, 1), cell(2, 2)]);
    assert_eq!(snake.last_tail(), cell(2, 3));
    assert_eq!(snake.last_step_time(), 7);
}

#[test]
fn new_snake_turns_down_a_small_grid() {
    for n in 0..5 {
        assert_eq!(Snake::new(n, STEP, TURN, 0).err(), Some(ConfigError::MapTooSmall));
    }
    assert!(Snake::new(5, STEP, TURN, 0).is_ok());
}

#[test]
fn new_snake_turns_down_zero_durations() {
    assert_eq!(Snake::new(10, 0, TURN, 0).err(), Some(ConfigError::ZeroStepTime));
    assert_eq!(Snake::new(10, STEP, 0, 0).err(), Some(ConfigError::ZeroTurnTime));
    assert_eq!(Snake::new(10, 0, 0, 0).err(), Some(ConfigError::ZeroStepTime));
    assert_eq!(Snake::new(4, 0, 0, 0).err(), Some(ConfigError::MapTooSmall));
}

#[test]
fn one_tick_moves_the_snake_up() {
    let (mut snake, mut grid) = fresh(10);
    assert_eq!(snake.next(&mut grid, STEP), TickOutcome::Moved);
    assert_eq!(snake.cells(), vec![cell(5, 5), cell(5, 6)]);
    assert_eq!(snake.head(), cell(5, 5));
    assert_eq!(snake.last_tail(), cell(5, 7));
    assert_eq!(snake.last_step_time(), STEP);
    assert!(snake.is_alive());
}

#[test]
fn snake_dies_on_the_border_and_keeps_its_body() {
    let (mut snake, mut grid) = fresh(10);
    let mut now = 0;
    while snake.head() != cell(5, 1) {
        now += STEP;
        assert_eq!(snake.next(&mut grid, now), TickOutcome::Moved);
        assert!(now <= 5 * STEP);
    }
    assert_eq!(snake.cells(), vec![cell(5, 1), cell(5, 2)]);
    now += STEP;
    assert_eq!(snake.next(&mut grid, now), TickOutcome::Died);
    assert_eq!(snake.cells(), vec![cell(5, 1), cell(5, 2)]);
    assert_eq!(snake.last_tail(), cell(5, 2));
    assert_eq!(snake.last_step_time(), now);
    assert!(!snake.is_alive());
}

#[test]
fn snake_grows_on_fruit() {
    let (mut snake, mut grid) = fresh(10);
    assert!(grid.place_fruit(5, 5));
    assert_eq!(snake.next(&mut grid, STEP), TickOutcome::Moved);
    assert_eq!(snake.cells(), vec![cell(5, 5), cell(5, 6), cell(5, 7)]);
    assert_eq!(snake.len(), 3);
    assert_eq!(snake.last_tail(), cell(5, 7));
    assert!(!grid.has_fruit(5, 5));
    assert!(grid.fruit_cells().is_empty());
}

#[test]
fn snake_keeps_its_length_without_fruit() {
    let (mut snake, mut grid) = fresh(10);
    assert!(grid.place_fruit(4, 5));
    assert!(grid.place_fruit(5, 4));
    assert_eq!(snake.next(&mut grid, STEP), TickOutcome::Moved);
    assert_eq!(snake.cells(), vec![cell(5, 5), cell(5, 6)]);
    assert_eq!(grid.fruit_cells(), vec![cell(4, 5), cell(5, 4)]);
    assert_eq!(snake.next(&mut grid, 2 * STEP), TickOutcome::Moved);
    assert_eq!(snake.cells(), vec![cell(5, 4), cell(5, 5), cell(5, 6)]);
    assert_eq!(grid.fruit_cells(), vec![cell(4, 5)]);
}

#[test]
fn tick_before_the_step_time_changes_nothing() {
    let (mut snake, mut grid) = fresh(10);
    assert!(snake.trun(Direction::Left));
    for now in [0, 1, STEP / 2, STEP - 1] {
        assert_eq!(snake.next(&mut grid, now), TickOutcome::Continuing);
        assert_eq!(snake.cells(), vec![cell(5, 6), cell(5, 7)]);
        assert_eq!(snake.direction(), Direction::Up);
        assert_eq!(snake.pending(), vec![Direction::Left]);
        assert_eq!(snake.last_step_time(), 0);
        assert_eq!(snake.last_tail(), cell(5, 8));
    }
}

#[test]
fn second_of_two_close_ticks_changes_nothing() {
    let (mut snake, mut grid) = fresh(10);
    assert_eq!(snake.next(&mut grid, STEP), TickOutcome::Moved);
    assert_eq!(snake.next(&mut grid, 2 * STEP - 1), TickOutcome::Continuing);
    assert_eq!(snake.cells(), vec![cell(5, 5), cell(5, 6)]);
    assert_eq!(snake.last_step_time(), STEP);
    assert_eq!(snake.next(&mut grid, 2 * STEP), TickOutcome::Moved);
    assert_eq!(snake.cells(), vec![cell(5, 4), cell(5, 5)]);
}

#[test]
fn a_clock_that_runs_backwards_moves_nothing() {
    let mut snake = Snake::new(10, STEP, TURN, 1000).unwrap();
    let mut grid = Grid::new(10);
    assert_eq!(snake.next(&mut grid, 0), TickOutcome::Continuing);
    assert_eq!(snake.next(&mut grid, 999), TickOutcome::Continuing);
    assert_eq!(snake.next(&mut grid, 1000 + STEP - 1), TickOutcome::Continuing);
    assert_eq!(snake.cells(), vec![cell(5, 6), cell(5, 7)]);
    assert_eq!(snake.next(&mut grid, 1000 + STEP), TickOutcome::Moved);
}

#[test]
fn a_late_tick_moves_one_cell_only() {
    let (mut snake, mut grid) = fresh(10);
    assert_eq!(snake.next(&mut grid, 10 * STEP), TickOutcome::Moved);
    assert_eq!(snake.cells(), vec![cell(5, 5), cell(5, 6)]);
    assert_eq!(snake.last_step_time(), 10 * STEP);
    assert_eq!(snake.next(&mut grid, 10 * STEP + 1), TickOutcome::Continuing);
}

#[test]
fn two_turns_are_applied_in_order() {
    let (mut snake, mut grid) = fresh(10);
    assert!(snake.trun(Direction::Left));
    assert!(snake.trun(Direction::Down));
    assert_eq!(snake.pending(), vec![Direction::Left, Direction::Down]);
    assert_eq!(snake.direction(), Direction::Up);

    assert_eq!(snake.next(&mut grid, STEP), TickOutcome::Moved);
    assert_eq!(snake.direction(), Direction::Left);
    assert_eq!(snake.pending(), vec![Direction::Down]);
    assert_eq!(snake.cells(), vec![cell(4, 6), cell(5, 6)]);

    assert_eq!(snake.next(&mut grid, 2 * STEP), TickOutcome::Moved);
    assert_eq!(snake.direction(), Direction::Down);
    assert!(snake.pending().is_empty());
    assert_eq!(snake.cells(), vec![cell(4, 7), cell(4, 6)]);

    assert_eq!(snake.next(&mut grid, 3 * STEP), TickOutcome::Moved);
    assert_eq!(snake.direction(), Direction::Down);
    assert_eq!(snake.cells(), vec![cell(4, 8), cell(4, 7)]);
}

#[test]
fn a_third_turn_is_turned_down() {
    let (mut snake, _) = fresh(10);
    assert!(snake.trun(Direction::Left));
    assert!(snake.trun(Direction::Down));
    assert!(!snake.trun(Direction::Right));
    assert!(!snake.trun(Direction::Left));
    assert_eq!(snake.pending(), vec![Direction::Left, Direction::Down]);
}

#[test]
fn turn_to_the_current_direction_is_turned_down() {
    let (mut snake, _) = fresh(10);
    assert!(!snake.trun(Direction::Up));
    assert!(snake.pending().is_empty());
    assert_eq!(snake.direction(), Direction::Up);
}

#[test]
fn turn_to_the_inverse_is_turned_down() {
    let (mut snake, _) = fresh(10);
    assert!(!snake.trun(Direction::Down));
    assert!(snake.pending().is_empty());
    assert_eq!(snake.direction(), Direction::Up);
}

#[test]
fn turns_are_judged_against_the_newest_request() {
    let (mut snake, _) = fresh(10);
    assert!(snake.trun(Direction::Right));
    assert!(!snake.trun(Direction::Right));
    assert!(!snake.trun(Direction::Left));
    assert_eq!(snake.pending(), vec![Direction::Right]);
    assert!(snake.trun(Direction::Up));
    assert_eq!(snake.pending(), vec![Direction::Right, Direction::Up]);
}

#[test]
fn a_turn_request_moves_nothing() {
    let (mut snake, _) = fresh(10);
    assert!(snake.trun(Direction::Right));
    assert_eq!(snake.cells(), vec![cell(5, 6), cell(5, 7)]);
    assert_eq!(snake.direction(), Direction::Up);
    assert_eq!(snake.last_step_time(), 0);
    assert!(snake.is_alive());
}

#[test]
fn rest_stops_the_snake_for_good() {
    let (mut snake, mut grid) = fresh(10);
    assert!(snake.trun(Direction::Rest));
    assert_eq!(snake.next(&mut grid, STEP), TickOutcome::Died);
    assert_eq!(snake.cells(), vec![cell(5, 6), cell(5, 7)]);
    assert_eq!(snake.direction(), Direction::Rest);
    assert!(!snake.is_alive());
}

#[test]
fn snake_dies_when_it_runs_into_itself() {
    let (mut snake, mut grid) = fresh(10);
    for y in [5, 4, 3] {
        assert!(grid.place_fruit(5, y));
    }
    for k in 1..=3 {
        assert_eq!(snake.next(&mut grid, k * STEP), TickOutcome::Moved);
    }
    assert_eq!(
        snake.cells(),
        vec![cell(5, 3), cell(5, 4), cell(5, 5), cell(5, 6), cell(5, 7)]
    );
    assert!(snake.trun(Direction::Left));
    assert_eq!(snake.next(&mut grid, 4 * STEP), TickOutcome::Moved);
    assert!(snake.trun(Direction::Down));
    assert_eq!(snake.next(&mut grid, 5 * STEP), TickOutcome::Moved);
    assert_eq!(
        snake.cells(),
        vec![cell(4, 4), cell(4, 3), cell(5, 3), cell(5, 4), cell(5, 5)]
    );
    assert!(snake.trun(Direction::Right));
    assert_eq!(snake.next(&mut grid, 6 * STEP), TickOutcome::Died);
    assert_eq!(
        snake.cells(),
        vec![cell(4, 4), cell(4, 3), cell(5, 3), cell(5, 4), cell(5, 5)]
    );
    assert_eq!(snake.last_tail(), cell(5, 5));
    assert!(!snake.is_alive());
}

#[test]
fn snake_may_follow_its_own_tail_only_after_it_left() {
    let (mut snake, mut grid) = fresh(10);
    for y in [5, 4] {
        assert!(grid.place_fruit(5, y));
    }
    assert_eq!(snake.next(&mut grid, STEP), TickOutcome::Moved);
    assert_eq!(snake.next(&mut grid, 2 * STEP), TickOutcome::Moved);
    assert_eq!(snake.cells(), vec![cell(5, 4), cell(5, 5), cell(5, 6), cell(5, 7)]);
    assert!(snake.trun(Direction::Left));
    assert_eq!(snake.next(&mut grid, 3 * STEP), TickOutcome::Moved);
    assert!(snake.trun(Direction::Down));
    assert_eq!(snake.next(&mut grid, 4 * STEP), TickOutcome::Moved);
    assert_eq!(snake.cells(), vec![cell(4, 5), cell(4, 4), cell(5, 4), cell(5, 5)]);
    assert!(snake.trun(Direction::Right));
    assert_eq!(snake.next(&mut grid, 5 * STEP), TickOutcome::Died);
}

#[test]
fn a_dead_snake_takes_no_more_ticks() {
    let (mut snake, mut grid) = fresh(5);
    assert_eq!(snake.next(&mut grid, STEP), TickOutcome::Died);
    let body = snake.cells();
    assert!(snake.trun(Direction::Left));
    for k in 2..6 {
        assert_eq!(snake.next(&mut grid, k * STEP), TickOutcome::Died);
        assert_eq!(snake.next_turn(&mut grid, k * STEP), TickOutcome::Died);
        assert_eq!(snake.cells(), body);
        assert_eq!(snake.last_step_time(), STEP);
        assert_eq!(snake.direction(), Direction::Up);
        assert_eq!(snake.pending(), vec![Direction::Left]);
        assert!(!snake.is_alive());
    }
}

#[test]
fn body_never_holds_a_cell_twice() {
    let (mut snake, mut grid) = fresh(12);
    for (x, y) in [(6, 7), (6, 6), (5, 6), (5, 7), (5, 8), (4, 8)] {
        assert!(grid.place_fruit(x, y));
    }
    let turns = [
        None,
        None,
        Some(Direction::Left),
        Some(Direction::Down),
        None,
        Some(Direction::Left),
        None,
        Some(Direction::Up),
        None,
        None,
    ];
    let mut now = 0;
    let mut previous = snake.head();
    for turn in turns {
        if let Some(dir) = turn {
            assert!(snake.trun(dir));
        }
        now += STEP;
        assert_eq!(snake.next(&mut grid, now), TickOutcome::Moved);
        let cells = snake.cells();
        assert!(has_no_duplicates(&cells));
        let head = snake.head();
        let distance = head.x.abs_diff(previous.x) + head.y.abs_diff(previous.y);
        assert_eq!(distance, 1);
        assert_eq!(Direction::new(&previous, &head), snake.direction());
        assert!(cells.iter().all(|c| 1 <= c.x && c.x <= 10 && 1 <= c.y && c.y <= 10));
        previous = head;
    }
    assert_eq!(snake.len(), 8);
}

#[test]
fn quick_turn_waits_for_the_turn_time_only() {
    let (mut snake, mut grid) = fresh(10);
    assert!(snake.trun(Direction::Left));
    assert_eq!(snake.next_turn(&mut grid, TURN - 1), TickOutcome::Continuing);
    assert_eq!(snake.cells(), vec![cell(5, 6), cell(5, 7)]);
    assert_eq!(snake.pending(), vec![Direction::Left]);
    assert_eq!(snake.next_turn(&mut grid, TURN), TickOutcome::Moved);
    assert_eq!(snake.cells(), vec![cell(4, 6), cell(5, 6)]);
    assert_eq!(snake.direction(), Direction::Left);
    assert_eq!(snake.last_step_time(), TURN);
    assert_eq!(snake.next(&mut grid, STEP), TickOutcome::Continuing);
    assert_eq!(snake.next(&mut grid, TURN + STEP), TickOutcome::Moved);
    assert_eq!(snake.cells(), vec![cell(3, 6), cell(4, 6)]);
}

#[test]
fn time_until_step_counts_down_to_zero() {
    let mut snake = Snake::new(10, STEP, TURN, 50).unwrap();
    let mut grid = Grid::new(10);
    assert_eq!(snake.time_until_step(0), STEP);
    assert_eq!(snake.time_until_step(50), STEP);
    assert_eq!(snake.time_until_step(51), STEP - 1);
    assert_eq!(snake.time_until_step(50 + STEP - 1), 1);
    assert_eq!(snake.time_until_step(50 + STEP), 0);
    assert_eq!(snake.time_until_step(u64::MAX), 0);
    assert_eq!(snake.next(&mut grid, 400), TickOutcome::Moved);
    assert_eq!(snake.time_until_step(430), STEP - 30);
}

#[test]
fn glides_of_a_fresh_snake() {
    let (snake, _) = fresh(10);
    assert_eq!(snake.still_cells(), vec![cell(5, 7)]);
    assert_eq!(snake.head_glide(), (cell(5, 7), Direction::Up));
    assert_eq!(snake.tail_glide(), (cell(5, 8), Direction::Up));
}

#[test]
fn glides_after_a_turn() {
    let (mut snake, mut grid) = fresh(10);
    assert!(snake.trun(Direction::Right));
    assert_eq!(snake.next(&mut grid, STEP), TickOutcome::Moved);
    assert_eq!(snake.cells(), vec![cell(6, 6), cell(5, 6)]);
    assert_eq!(snake.still_cells(), vec![cell(5, 6)]);
    assert_eq!(snake.head_glide(), (cell(5, 6), Direction::Right));
    assert_eq!(snake.tail_glide(), (cell(5, 7), Direction::Up));
}

#[test]
fn tail_rests_after_growth() {
    let (mut snake, mut grid) = fresh(10);
    assert!(grid.place_fruit(5, 5));
    assert_eq!(snake.next(&mut grid, STEP), TickOutcome::Moved);
    assert_eq!(snake.still_cells(), vec![cell(5, 6), cell(5, 7)]);
    assert_eq!(snake.head_glide(), (cell(5, 6), Direction::Up));
    assert_eq!(snake.tail_glide(), (cell(5, 7), Direction::Rest));
}

#[test]
fn snake_on_a_smaller_board_finds_no_fruit_off_it() {
    let mut snake = Snake::new(20, STEP, TURN, 0).unwrap();
    let mut grid = Grid::new(5);
    assert_eq!(snake.next(&mut grid, STEP), TickOutcome::Moved);
    assert_eq!(snake.cells(), vec![cell(10, 15), cell(10, 16)]);
}

#[test]
fn occupied_cells_follow_the_body() {
    let (mut snake, mut grid) = fresh(10);
    assert!(grid.place_fruit(5, 5));
    assert!(snake.occupies(5, 6));
    assert!(snake.occupies(5, 7));
    assert!(!snake.occupies(5, 5));
    assert!(!snake.occupies(5, 8));
    assert_eq!(snake.next(&mut grid, STEP), TickOutcome::Moved);
    assert!(snake.occupies(5, 5));
    assert!(snake.occupies(5, 6));
    assert!(snake.occupies(5, 7));
    assert_eq!(snake.next(&mut grid, 2 * STEP), TickOutcome::Moved);
    assert!(snake.occupies(5, 4));
    assert!(!snake.occupies(5, 7));
    assert!(!snake.occupies(0, 0));
    assert!(!snake.occupies(10, 10));
    assert!(!snake.occupies(u32::MAX, 4));
    for x in 0..10 {
        for y in 0..10 {
            assert_eq!(snake.occupies(x, y), snake.cells().contains(&cell(x, y)));
        }
    }
}

#[test]
fn every_wall_of_every_grid_kills() {
    for n in 5..16u32 {
        for wall in [Direction::Up, Direction::Left, Direction::Right, Direction::Down] {
            let mut snake = Snake::new(n, STEP, TURN, 0).unwrap();
            let mut grid = Grid::new(n);
            let mut now = 0;
            if wall == Direction::Down {
                assert!(snake.trun(Direction::Left));
                now += STEP;
                let first = snake.next(&mut grid, now);
                if first == TickOutcome::Died {
                    assert_eq!(snake.head().x, 1);
                    continue;
                }
                assert!(snake.trun(Direction::Down));
            } else if wall != Direction::Up {
                assert!(snake.trun(wall));
            }
            let mut steps = 0;
            loop {
                now += STEP;
                let before = snake.cells();
                let head = snake.head();
                let outcome = snake.next(&mut grid, now);
                if outcome == TickOutcome::Died {
                    let next_to_wall = match wall {
                        Direction::Up => head.y == 1,
                        Direction::Down => head.y == n - 2,
                        Direction::Left => head.x == 1,
                        _ => head.x == n - 2,
                    };
                    assert!(next_to_wall);
                    assert_eq!(snake.cells(), before);
                    assert_eq!(snake.last_tail(), before[before.len() - 1]);
                    assert!(!snake.is_alive());
                    break;
                }
                assert_eq!(outcome, TickOutcome::Moved);
                let cells = snake.cells();
                assert!(cells.iter().all(|c| 1 <= c.x && c.x <= n - 2 && 1 <= c.y && c.y <= n - 2));
                steps += 1;
                assert!(steps < n);
            }
        }
    }
}
