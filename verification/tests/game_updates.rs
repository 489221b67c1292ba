use rusnet::game::state::game::{FRUIT_CHANCE, UPDATE_INTERVAL};
use rusnet::game::state::{Game, StateResult};
use rusnet::game::{ConfigError, Direction, Key, Segment};

const STEP: u64 = 100;
const TURN: u64 = 40;

fn cell(x: u32, y: u32) -> Segment {
    Segment { x, y }
}

fn fresh(n: u32) -> Game {
    Game::new(n, STEP, TURN, 0).unwrap()
}

#[test]
fn new_game_starts_with_a_fresh_snake_and_no_fruit() {
    let game = fresh(10);
    assert_eq!(game.snake().cells(), vec![cell(5, 6), cell(5, 7)]);
    assert_eq!(game.snake().direction(), Direction::Up);
    assert!(game.snake().is_alive());
    assert_eq!(game.map().size(), 10);
    assert!(game.map().fruit_cells().is_empty());
    assert!(!game.is_over());
}

#[test]
fn new_game_turns_down_settings_that_cannot_be_played() {
    assert_eq!(Game::new(4, STEP, TURN, 0).err(), Some(ConfigError::MapTooSmall));
    assert_eq!(Game::new(10, 0, TURN, 0).err(), Some(ConfigError::ZeroStepTime));
    assert_eq!(Game::new(10, STEP, 0, 0).err(), Some(ConfigError::ZeroTurnTime));
}

#[test]
fn rolls_come_every_hundred_and_fifty_milliseconds_and_five_in_a_hundred_hit() {
    assert_eq!(UPDATE_INTERVAL, 150);
    assert_eq!(FRUIT_CHANCE, 5);
}

#[test]
fn advance_moves_the_snake_when_a_step_is_due() {
    let mut game = fresh(10);
    assert_eq!(game.advance(STEP - 1), StateResult::Continue);
    assert_eq!(game.snake().cells(), vec![cell(5, 6), cell(5, 7)]);
    assert_eq!(game.advance(STEP), StateResult::Continue);
    assert_eq!(game.snake().cells(), vec![cell(5, 5), cell(5, 6)]);
    assert!(!game.is_over());
}

#[test]
fn advance_ends_the_game_when_the_snake_dies() {
    let mut game = fresh(5);
    assert_eq!(game.advance(STEP), StateResult::GameOver);
    assert!(game.is_over());
    assert!(!game.snake().is_alive());
    assert_eq!(game.snake().cells(), vec![cell(2, 1), cell(2, 2)]);
    assert_eq!(game.advance(2 * STEP), StateResult::GameOver);
    assert_eq!(game.update(3 * STEP), StateResult::GameOver);
    assert_eq!(game.snake().last_step_time(), STEP);
}

#[test]
fn update_reports_game_over_on_the_tick_that_kills() {
    let mut game = fresh(5);
    assert_eq!(game.update(STEP - 1), StateResult::Continue);
    assert_eq!(game.update(STEP), StateResult::GameOver);
    assert!(game.is_over());
    assert!(game.map().fruit_cells().is_empty());
}

#[test]
fn no_roll_is_due_before_the_interval_has_passed() {
    let game = fresh(10);
    assert!(!game.roll_due(0));
    assert!(!game.roll_due(UPDATE_INTERVAL - 1));
    assert!(game.roll_due(UPDATE_INTERVAL));
    assert!(game.roll_due(10 * UPDATE_INTERVAL));
}

#[test]
fn updates_before_the_first_roll_bring_no_fruit() {
    let mut game = fresh(20);
    for now in 0..UPDATE_INTERVAL {
        assert_eq!(game.update(now), StateResult::Continue);
        assert!(game.map().fruit_cells().is_empty());
    }
}

#[test]
fn a_roll_that_hits_brings_one_fruit_on_the_interior() {
    for roll in 0..FRUIT_CHANCE {
        let mut game = fresh(10);
        game.roll_fruit(roll, 500);
        let cells = game.map().fruit_cells();
        assert_eq!(cells.len(), 1);
        assert!(1 <= cells[0].x && cells[0].x <= 8);
        assert!(1 <= cells[0].y && cells[0].y <= 8);
        assert!(!game.roll_due(500 + UPDATE_INTERVAL - 1));
        assert!(game.roll_due(500 + UPDATE_INTERVAL));
    }
}

#[test]
fn a_roll_that_misses_brings_no_fruit() {
    for roll in [FRUIT_CHANCE, FRUIT_CHANCE + 1, 50, 99, 100, u32::MAX] {
        let mut game = fresh(10);
        game.roll_fruit(roll, 500);
        assert!(game.map().fruit_cells().is_empty());
        assert!(!game.roll_due(500 + UPDATE_INTERVAL - 1));
        assert!(game.roll_due(500 + UPDATE_INTERVAL));
    }
}

#[test]
fn a_roll_leaves_the_snake_alone() {
    let mut game = fresh(10);
    game.roll_fruit(0, 500);
    assert_eq!(game.snake().cells(), vec![cell(5, 6), cell(5, 7)]);
    assert_eq!(game.snake().last_step_time(), 0);
    assert!(!game.is_over());
}

#[test]
fn updates_add_at_most_one_fruit_each_and_only_when_a_roll_is_due() {
    let mut game = Game::new(35, u64::MAX, TURN, 0).unwrap();
    let mut count = 0;
    let mut last_roll = 0;
    let mut now = 0;
    for _ in 0..3000 {
        now += 50;
        let due = now - last_roll >= UPDATE_INTERVAL;
        assert_eq!(game.roll_due(now), due);
        assert_eq!(game.update(now), StateResult::Continue);
        let cells = game.map().fruit_cells();
        if due {
            assert!(cells.len() == count || cells.len() == count + 1);
            last_roll = now;
        } else {
            assert_eq!(cells.len(), count);
        }
        assert!(cells.iter().all(|c| 1 <= c.x && c.x <= 33 && 1 <= c.y && c.y <= 33));
        count = cells.len();
    }
    assert_eq!(game.snake().cells(), vec![cell(17, 31), cell(17, 32)]);
}

#[test]
fn rolls_hit_sometimes_and_miss_sometimes() {
    let mut game = Game::new(35, u64::MAX, TURN, 0).unwrap();
    let mut hits = 0;
    let mut count = 0;
    for k in 1..=4000u64 {
        assert_eq!(game.update(k * UPDATE_INTERVAL), StateResult::Continue);
        let now_count = game.map().fruit_cells().len();
        if now_count > count {
            hits += 1;
        }
        count = now_count;
    }
    assert!(hits > 0);
    assert!(hits < 2000);
}

#[test]
fn escape_ends_the_game() {
    let mut game = fresh(10);
    assert_eq!(game.key_down_event(Some(Key::Escape), false, 10), StateResult::Continue);
    assert!(game.is_over());
    assert!(game.snake().is_alive());
    assert_eq!(game.update(STEP), StateResult::GameOver);
    assert_eq!(game.snake().cells(), vec![cell(5, 6), cell(5, 7)]);
}

#[test]
fn arrow_keys_steer_the_snake() {
    let mut game = fresh(10);
    assert_eq!(game.key_down_event(Some(Key::Left), false, TURN - 1), StateResult::Continue);
    assert_eq!(game.snake().pending(), vec![Direction::Left]);
    assert_eq!(game.snake().cells(), vec![cell(5, 6), cell(5, 7)]);
    assert_eq!(game.update(STEP), StateResult::Continue);
    assert_eq!(game.snake().direction(), Direction::Left);
    assert_eq!(game.snake().cells(), vec![cell(4, 6), cell(5, 6)]);
}

#[test]
fn a_turn_that_is_taken_up_steps_at_once_after_the_turn_time() {
    let mut game = fresh(10);
    assert_eq!(game.key_down_event(Some(Key::Left), false, TURN), StateResult::Continue);
    assert!(game.snake().pending().is_empty());
    assert_eq!(game.snake().direction(), Direction::Left);
    assert_eq!(game.snake().cells(), vec![cell(4, 6), cell(5, 6)]);
    assert_eq!(game.snake().last_step_time(), TURN);
    assert_eq!(game.update(STEP), StateResult::Continue);
    assert_eq!(game.snake().cells(), vec![cell(4, 6), cell(5, 6)]);
}

#[test]
fn a_turn_that_is_turned_down_steps_nowhere() {
    let mut game = fresh(10);
    assert_eq!(game.key_down_event(Some(Key::Up), false, STEP), StateResult::Continue);
    assert_eq!(game.key_down_event(Some(Key::Down), false, STEP), StateResult::Continue);
    assert!(game.snake().pending().is_empty());
    assert_eq!(game.snake().cells(), vec![cell(5, 6), cell(5, 7)]);
    assert_eq!(game.snake().last_step_time(), 0);
}

#[test]
fn a_quick_step_into_the_border_ends_the_game() {
    let mut game = fresh(5);
    assert_eq!(game.snake().cells(), vec![cell(2, 1), cell(2, 2)]);
    game.steer(Direction::Left, TURN);
    assert_eq!(game.snake().cells(), vec![cell(1, 1), cell(2, 1)]);
    assert!(!game.is_over());
    game.steer(Direction::Up, 2 * TURN);
    assert!(game.is_over());
    assert!(!game.snake().is_alive());
    assert_eq!(game.snake().cells(), vec![cell(1, 1), cell(2, 1)]);
    assert_eq!(game.update(10 * STEP), StateResult::GameOver);
}

#[test]
fn keys_steer_nothing_in_a_game_that_is_over() {
    let mut game = fresh(10);
    game.key_down_event(Some(Key::Escape), false, 0);
    game.key_down_event(Some(Key::Left), false, STEP);
    game.steer(Direction::Right, STEP);
    assert!(game.snake().pending().is_empty());
    assert_eq!(game.snake().cells(), vec![cell(5, 6), cell(5, 7)]);
    assert!(game.is_over());
}

#[test]
fn other_keys_do_nothing_in_a_game() {
    let mut game = fresh(10);
    for key in [None, Some(Key::Return), Some(Key::Other)] {
        assert_eq!(game.key_down_event(key, false, STEP), StateResult::Continue);
        assert!(game.snake().pending().is_empty());
        assert_eq!(game.snake().cells(), vec![cell(5, 6), cell(5, 7)]);
        assert!(!game.is_over());
    }
}

#[test]
fn r_starts_the_game_afresh() {
    let mut game = fresh(10);
    game.roll_fruit(0, 10);
    game.steer(Direction::Left, TURN);
    game.key_down_event(Some(Key::Escape), false, 60);
    assert!(game.is_over());
    assert_eq!(game.key_down_event(Some(Key::R), false, 1000), StateResult::Continue);
    assert!(!game.is_over());
    assert_eq!(game.snake().cells(), vec![cell(5, 6), cell(5, 7)]);
    assert_eq!(game.snake().direction(), Direction::Up);
    assert_eq!(game.snake().last_step_time(), 1000);
    assert!(game.snake().pending().is_empty());
    assert!(game.snake().is_alive());
    assert!(game.map().fruit_cells().is_empty());
    assert!(!game.roll_due(1000 + UPDATE_INTERVAL - 1));
    assert!(game.roll_due(1000 + UPDATE_INTERVAL));
}

#[test]
fn restart_revives_a_dead_snake() {
    let mut game = fresh(5);
    assert_eq!(game.update(STEP), StateResult::GameOver);
    game.restart(2 * STEP);
    assert!(!game.is_over());
    assert!(game.snake().is_alive());
    assert_eq!(game.update(2 * STEP + 1), StateResult::Continue);
    assert_eq!(game.update(3 * STEP), StateResult::GameOver);
}
