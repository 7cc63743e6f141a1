use snake::clock::{GameClock, INITIAL_INTERVAL, INTERVAL_STEP, MIN_INTERVAL};
use snake::geometry::{Direction, Position};
use snake::session::{GameSession, COLS, ROWS};

#[test]
fn clock_fires_on_the_first_positive_advance() {
    let mut c = GameClock::new();
    assert!(!c.advance(0));
    assert!(c.advance(16_000));
    assert_eq!(c.next_tick, 220_000);
    assert!(!c.advance(100_000));
    assert_eq!(c.elapsed, 116_000);
    assert!(!c.advance(104_000));
    assert!(c.advance(6_000));
    assert_eq!(c.next_tick, 440_000);
    assert_eq!(c.interval, INITIAL_INTERVAL);
}

#[test]
fn clock_speed_up_is_floored() {
    let mut c = GameClock::new();
    c.speed_up();
    assert_eq!(c.interval, INITIAL_INTERVAL - INTERVAL_STEP);
    for _ in 0..100 {
        c.speed_up();
    }
    assert_eq!(c.interval, MIN_INTERVAL);
    assert!(c.advance(1));
    assert_eq!(c.next_tick, MIN_INTERVAL);
}

#[test]
fn new_session_layout() {
    let g = GameSession::standard();
    assert_eq!((g.cols, g.rows), (COLS, ROWS));
    assert_eq!(g.food, Position::new(7, 7));
    assert_eq!(g.score, 0);
    assert!(!g.over);
    assert_eq!(g.snake.head, Position::new(0, 0));
    assert_eq!(g.clock.interval, INITIAL_INTERVAL);
    assert_eq!(GameSession::new(12, 9).food, Position::new(6, 4));
}

#[test]
fn eating_grows_scores_and_speeds_up() {
    let mut g = GameSession::new(15, 15);
    g.food = Position::new(1, 0);
    g.tick();
    assert_eq!(g.snake.head, Position::new(1, 0));
    assert_eq!(g.score, 0);
    g.tick();
    assert_eq!(g.score, 1);
    assert_eq!(g.snake.head, Position::new(2, 0));
    assert_eq!(g.snake.body, vec![Position::new(1, 0)]);
    assert_eq!(g.clock.interval, INITIAL_INTERVAL - INTERVAL_STEP);
    assert_ne!(g.food, Position::new(1, 0));
    assert!(0 <= g.food.x && g.food.x < 15 && 0 <= g.food.y && g.food.y < 15);
    assert!(!g.over);
}

#[test]
fn input_is_ignored_once_over() {
    let mut g = GameSession::new(3, 3);
    g.handle_input(Direction::Down);
    assert_eq!(g.snake.direction, Direction::Down);
    g.handle_input(Direction::Up);
    assert_eq!(g.snake.direction, Direction::Down);
    for _ in 0..3 {
        g.tick();
    }
    assert!(g.over);
    g.handle_input(Direction::Right);
    assert_eq!(g.snake.direction, Direction::Down);
}

#[test]
fn over_session_does_not_update() {
    let mut g = GameSession::new(1, 1);
    g.tick();
    assert!(g.over);
    let head = g.snake.head;
    assert!(!g.update(1_000_000));
    assert_eq!(g.snake.head, head);
    assert_eq!(g.clock.elapsed, 0);
}

#[test]
fn self_collision_ends_the_game() {
    let mut g = GameSession::new(10, 10);
    g.snake.head = Position::new(5, 5);
    g.snake.body = vec![Position::new(5, 6), Position::new(4, 6), Position::new(4, 5), Position::new(3, 5)];
    g.score = 4;
    g.snake.direction = Direction::Left;
    g.food = Position::new(0, 9);
    g.tick();
    assert_eq!(g.snake.head, Position::new(4, 5));
    assert!(g.over);
}

#[test]
fn restart_resets_everything() {
    let mut g = GameSession::new(15, 15);
    g.food = Position::new(1, 0);
    assert!(g.update(300_000));
    assert!(g.update(300_000));
    assert_eq!(g.score, 1);
    g.food = Position::new(0, 14);
    let mut ticks = 2;
    while !g.over {
        assert!(g.update(300_000) || g.over);
        ticks += 1;
    }
    assert_eq!(ticks, 15);
    assert_eq!(g.score, 1);
    g.restart();
    assert!(!g.over);
    assert_eq!(g.score, 0);
    assert!(g.snake.body.is_empty());
    assert_eq!(g.snake.head, Position::new(0, 0));
    assert_eq!(g.snake.direction, Direction::Right);
    assert_eq!(g.food, Position::new(7, 7));
    assert_eq!(g.clock.interval, INITIAL_INTERVAL);
    assert_eq!(g.clock.elapsed, 0);
    assert_eq!(g.clock.next_tick, 0);
}

#[test]
fn restart_is_ignored_while_playing() {
    let mut g = GameSession::new(15, 15);
    g.tick();
    g.restart();
    assert_eq!(g.snake.head, Position::new(1, 0));
}

#[test]
fn twelve_ticks_end_a_twelve_wide_game() {
    let mut g = GameSession::new(12, 12);
    for tick in 1..=12 {
        assert!(g.update(250_000));
        assert_eq!(g.over, tick == 12, "tick {}", tick);
        assert_eq!(g.snake.off_field(12, 12), tick == 12);
    }
    assert_eq!(g.snake.head, Position::new(12, 0));
}
