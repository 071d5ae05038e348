use proxy::snake::{Direction, Snake};

#[test]
fn new_snake_heads_right() {
    let s = Snake::new(5, 7);
    assert_eq!(s.head_position(), (7, 7));
    assert_eq!(s.head_direction(), Direction::Right);
    assert!(s.overlap_tail(6, 7));
    assert!(!s.overlap_tail(5, 7));
}

#[test]
fn opposite_directions() {
    assert_eq!(Direction::Up.opposite(), Direction::Down);
    assert_eq!(Direction::Down.opposite(), Direction::Up);
    assert_eq!(Direction::Left.opposite(), Direction::Right);
    assert_eq!(Direction::Right.opposite(), Direction::Left);
}

#[test]
fn next_head_follows_heading() {
    let s = Snake::new(0, 0);
    assert_eq!(s.next_head(None), (3, 0));
    assert_eq!(s.next_head(Some(Direction::Up)), (2, -1));
    assert_eq!(s.next_head(Some(Direction::Down)), (2, 1));
    assert_eq!(s.next_head(Some(Direction::Left)), (1, 0));
}

#[test]
fn move_forward_and_restore_tail() {
    let mut s = Snake::new(0, 0);
    s.move_forward(Some(Direction::Down));
    assert_eq!(s.head_position(), (2, 1));
    assert_eq!(s.head_direction(), Direction::Down);
    assert!(!s.overlap_tail(0, 0));
    assert!(s.overlap_tail(2, 0));
    s.move_forward(None);
    assert_eq!(s.head_position(), (2, 2));
    s.restore_tail();
    // the restored cell is the last one, which overlap_tail leaves out
    assert!(!s.overlap_tail(1, 0));
    assert!(s.overlap_tail(2, 0));
    s.move_forward(None);
    assert_eq!(s.head_position(), (2, 3));
    assert_eq!(s.next_head(None), (2, 4));
    assert!(s.overlap_tail(2, 1));
    assert!(!s.overlap_tail(2, 0));
}
