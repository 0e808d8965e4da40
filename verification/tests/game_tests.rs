use snake_game::game::{Game, Key, MOVING_PERIOD_MS, RESTART_TIME_MS};
use snake_game::snake::Direction;

fn body(g: &Game) -> Vec<(i32, i32)> {
    g.snake().body_cells()
}

#[test]
fn reversal_input_is_rejected() {
    let mut g = Game::new_with_apple(30, 30, 10, 10);
    let before = body(&g);
    g.key_pressed(Key::A);
    assert_eq!(body(&g), before);
    assert_eq!(g.snake().head_direction(), Direction::Right);
    assert!(!g.is_game_over());
    assert_eq!(g.score(), 0);
    g.key_pressed(Key::Left);
    assert_eq!(body(&g), before);
    assert_eq!(g.snake().head_direction(), Direction::Right);
}

#[test]
fn movement_key_fires_an_immediate_tick() {
    let mut g = Game::new_with_apple(30, 30, 10, 10);
    g.key_pressed(Key::S);
    assert_eq!(g.snake().head_direction(), Direction::Down);
    assert_eq!(body(&g), vec![(4, 3), (4, 2), (3, 2)]);
    g.key_pressed(Key::Other);
    assert_eq!(body(&g), vec![(4, 4), (4, 3), (4, 2)]);
}

#[test]
fn border_collision_ends_game_and_keeps_body() {
    let mut g = Game::new_with_apple(30, 30, 10, 10);
    g.key_pressed(Key::W);
    assert!(!g.is_game_over());
    let before = body(&g);
    assert_eq!(before, vec![(4, 1), (4, 2), (3, 2)]);
    g.key_pressed(Key::W);
    assert!(g.is_game_over());
    assert_eq!(body(&g), before);
}

#[test]
fn self_collision_ends_game_and_keeps_body() {
    let mut g = Game::new_with_apple(30, 30, 5, 2);
    g.update_snake(None);
    assert_eq!(g.score(), 1);
    g.update_snake(Some(Direction::Up));
    g.update_snake(Some(Direction::Left));
    let before = body(&g);
    assert_eq!(before, vec![(4, 1), (5, 1), (5, 2), (4, 2)]);
    g.update_snake(Some(Direction::Down));
    assert!(g.is_game_over());
    assert_eq!(body(&g), before);
}

#[test]
fn eating_grows_scores_and_clears_apple() {
    let mut g = Game::new_with_apple(30, 30, 5, 2);
    assert_eq!(g.apple(), Some((5, 2)));
    g.update_snake(None);
    assert_eq!(g.apple(), None);
    assert_eq!(g.score(), 1);
    assert_eq!(g.snake().get_length(), 4);
    assert!(!g.is_game_over());
}

#[test]
fn paused_ticks_leave_snake_but_reset_timer() {
    let mut g = Game::new_with_apple(30, 30, 10, 10);
    let before = body(&g);
    g.key_pressed(Key::Space);
    assert!(g.is_paused());
    assert_eq!(body(&g), before);
    let mut i = 0;
    while i < 3 {
        g.update_snake(None);
        assert_eq!(body(&g), before);
        assert_eq!(g.waiting_time_ms(), 0);
        i += 1;
    }
    g.key_pressed(Key::Space);
    assert!(!g.is_paused());
}

#[test]
fn update_ticks_only_after_moving_period() {
    let mut g = Game::new_with_apple(30, 30, 10, 10);
    let before = body(&g);
    g.update(MOVING_PERIOD_MS / 2);
    assert_eq!(body(&g), before);
    assert_eq!(g.waiting_time_ms(), MOVING_PERIOD_MS / 2);
    g.update(MOVING_PERIOD_MS / 2 + 1);
    assert_eq!(g.waiting_time_ms(), 0);
    assert_eq!(body(&g), vec![(5, 2), (4, 2), (3, 2)]);
}

#[test]
fn new_game_places_apple_inside_and_off_snake() {
    let g = Game::new(30, 30);
    let (w, h) = g.size();
    assert_eq!((w, h), (30, 30));
    let a = g.apple().unwrap();
    assert!(0 < a.0 && a.0 < w - 1);
    assert!(0 < a.1 && a.1 < h - 1);
    assert!(!g.snake().is_overlapping(a.0, a.1));
    assert_eq!(g.score(), 0);
    assert!(!g.is_game_over());
    assert!(!g.is_paused());
    assert_eq!(g.waiting_time_ms(), 0);
    assert_eq!(body(&g), vec![(4, 2), (3, 2), (2, 2)]);
}

#[test]
fn eaten_apple_is_replaced_on_next_update() {
    let mut g = Game::new_with_apple(30, 30, 5, 2);
    g.update_snake(None);
    assert_eq!(g.apple(), None);
    g.update(1);
    let a = g.apple().unwrap();
    let (w, h) = g.size();
    assert!(0 < a.0 && a.0 < w - 1);
    assert!(0 < a.1 && a.1 < h - 1);
    assert!(!g.snake().is_overlapping(a.0, a.1));
}

#[test]
fn key_presses_are_ignored_after_game_over() {
    let mut g = Game::new_with_apple(30, 30, 10, 10);
    g.key_pressed(Key::W);
    g.key_pressed(Key::W);
    assert!(g.is_game_over());
    let before = body(&g);
    g.key_pressed(Key::S);
    assert_eq!(body(&g), before);
    assert!(g.is_game_over());
    g.key_pressed(Key::Space);
    assert!(!g.is_paused());
}

#[test]
fn restart_after_game_over_resets_everything() {
    let mut g = Game::new_with_apple(30, 30, 5, 2);
    g.update_snake(None);
    assert_eq!(g.score(), 1);
    g.key_pressed(Key::W);
    g.key_pressed(Key::W);
    assert!(g.is_game_over());
    g.update(RESTART_TIME_MS / 2);
    assert!(g.is_game_over());
    g.update(RESTART_TIME_MS / 2 + 1);
    assert!(!g.is_game_over());
    assert_eq!(g.score(), 0);
    assert_eq!(body(&g), vec![(4, 2), (3, 2), (2, 2)]);
    assert_eq!(g.snake().head_direction(), Direction::Right);
    assert!(!g.is_paused());
    assert_eq!(g.waiting_time_ms(), 0);
    let a = g.apple().unwrap();
    let (w, h) = g.size();
    assert!(0 < a.0 && a.0 < w - 1 && 0 < a.1 && a.1 < h - 1);
    assert!(!g.snake().is_overlapping(a.0, a.1));
}
