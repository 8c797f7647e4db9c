use snake_game::snake::{Direction, Snake};

#[test]
fn opposite_pairs_and_involution() {
    assert_eq!(Direction::Up.opposite(), Direction::Down);
    assert_eq!(Direction::Down.opposite(), Direction::Up);
    assert_eq!(Direction::Left.opposite(), Direction::Right);
    assert_eq!(Direction::Right.opposite(), Direction::Left);
    for d in [Direction::Up, Direction::Down, Direction::Left, Direction::Right] {
        assert_eq!(d.opposite().opposite(), d);
    }
}

#[test]
fn new_snake_shape() {
    let s = Snake::new(5, 7);
    assert_eq!(s.draw(), vec![(7, 7), (6, 7), (5, 7)]);
    assert_eq!(s.head_position(), (7, 7));
    assert_eq!(s.head_direction(), Direction::Right);
}

#[test]
fn first_move_goes_right() {
    let mut s = Snake::new(2, 2);
    s.move_forward(None);
    assert_eq!(s.head_position(), (5, 2));
    assert_eq!(s.draw(), vec![(5, 2), (4, 2), (3, 2)]);
    assert_eq!(s.head_direction(), Direction::Right);
}

#[test]
fn move_with_new_heading() {
    let mut s = Snake::new(2, 2);
    s.move_forward(Some(Direction::Up));
    assert_eq!(s.draw(), vec![(4, 1), (4, 2), (3, 2)]);
    assert_eq!(s.head_direction(), Direction::Up);
}

#[test]
fn next_head_does_not_move() {
    let s = Snake::new(2, 2);
    assert_eq!(s.next_head(None), (5, 2));
    assert_eq!(s.next_head(Some(Direction::Down)), (4, 3));
    assert_eq!(s.next_head(Some(Direction::Up)), (4, 1));
    assert_eq!(s.next_head(Some(Direction::Left)), (3, 2));
    assert_eq!(s.draw(), vec![(4, 2), (3, 2), (2, 2)]);
    assert_eq!(s.head_direction(), Direction::Right);
}

#[test]
fn restore_tail_appends_vacated_cell() {
    let mut s = Snake::new(2, 2);
    s.move_forward(None);
    s.restore_tail();
    assert_eq!(s.draw(), vec![(5, 2), (4, 2), (3, 2), (2, 2)]);
    assert_eq!(s.head_position(), (5, 2));
}

#[test]
fn overlap_tail_skips_last_cell() {
    let s = Snake::new(2, 2);
    assert!(!s.overlap_tail(2, 2));
    assert!(s.overlap_tail(3, 2));
    assert!(s.overlap_tail(4, 2));
    assert!(!s.overlap_tail(5, 2));
    assert!(!s.overlap_tail(0, 0));
}
