use snake_game::snake::{Direction, Snake};

#[test]
fn initial_snake_has_three_cells_facing_right() {
    let s = Snake::new(2, 2);
    assert_eq!(s.body_cells(), vec![(4, 2), (3, 2), (2, 2)]);
    assert_eq!(s.head_direction(), Direction::Right);
    assert_eq!(s.head_position(), (4, 2));
    assert_eq!(s.get_length(), 3);
}

#[test]
fn move_forward_keeps_length_and_matches_lookahead() {
    let mut s = Snake::new(2, 2);
    let predicted = s.next_head(None);
    assert_eq!(predicted, (5, 2));
    s.move_forward(None);
    assert_eq!(s.head_position(), predicted);
    assert_eq!(s.get_length(), 3);

    let predicted = s.next_head(Some(Direction::Up));
    assert_eq!(predicted, (5, 1));
    s.move_forward(Some(Direction::Up));
    assert_eq!(s.head_position(), predicted);
    assert_eq!(s.get_length(), 3);
    assert_eq!(s.head_direction(), Direction::Up);
}

#[test]
fn lookahead_covers_all_four_directions() {
    let s = Snake::new(2, 2);
    assert_eq!(s.next_head(Some(Direction::Up)), (4, 1));
    assert_eq!(s.next_head(Some(Direction::Down)), (4, 3));
    assert_eq!(s.next_head(Some(Direction::Left)), (3, 2));
    assert_eq!(s.next_head(Some(Direction::Right)), (5, 2));
}

#[test]
fn grow_after_move_restores_old_tail() {
    let mut s = Snake::new(2, 2);
    s.move_forward(None);
    s.grow_tail();
    assert_eq!(s.get_length(), 4);
    let cells = s.body_cells();
    assert_eq!(cells, vec![(5, 2), (4, 2), (3, 2), (2, 2)]);
    assert_eq!(cells[3], (2, 2));
}

#[test]
fn opposite_round_trip() {
    let dirs = [Direction::Up, Direction::Down, Direction::Left, Direction::Right];
    for d in dirs {
        assert_eq!(d.opposite().opposite(), d);
        assert_ne!(d.opposite(), d);
    }
    assert_eq!(Direction::Up.opposite(), Direction::Down);
    assert_eq!(Direction::Left.opposite(), Direction::Right);
}

#[test]
fn overlap_detects_every_body_cell() {
    let s = Snake::new(2, 2);
    assert!(s.is_overlapping(4, 2));
    assert!(s.is_overlapping(3, 2));
    assert!(s.is_overlapping(2, 2));
    assert!(!s.is_overlapping(5, 2));
    assert!(!s.is_overlapping(4, 1));
}
