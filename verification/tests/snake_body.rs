use snake_game::direction::Direction;
use snake_game::snake::Snake;

fn body(x: i32, y: i32) -> Vec<(i32, i32)> {
    Snake::new(x, y).cells()
}

#[test]
fn new_snake_has_three_distinct_cells_head_first() {
    for &(x, y) in &[(2, 2), (5, 5), (0, 0), (-7, 12), (i32::MIN + 2, i32::MIN), (i32::MAX, i32::MAX)] {
        let cells = body(x, y);
        assert_eq!(cells, vec![(x, y), (x - 1, y), (x - 2, y)]);
        assert_ne!(cells[0], cells[1]);
        assert_ne!(cells[0], cells[2]);
        assert_ne!(cells[1], cells[2]);
    }
}

#[test]
fn new_snake_heads_right_from_its_head_cell() {
    let snake = Snake::new(5, 5);
    assert_eq!(snake.head_position(), (5, 5));
    assert_eq!(snake.head_direction(), Direction::Right);
}

#[test]
fn next_head_is_one_step_in_each_direction() {
    let snake = Snake::new(5, 5);
    assert_eq!(snake.next_head(Some(Direction::Up)), (5, 4));
    assert_eq!(snake.next_head(Some(Direction::Down)), (5, 6));
    assert_eq!(snake.next_head(Some(Direction::Left)), (4, 5));
    assert_eq!(snake.next_head(Some(Direction::Right)), (6, 5));
    assert_eq!(snake.next_head(None), (6, 5));
}

#[test]
fn next_head_leaves_the_snake_alone() {
    let snake = Snake::new(5, 5);
    let before = snake.cells();
    let _ = snake.next_head(Some(Direction::Down));
    assert_eq!(snake.cells(), before);
    assert_eq!(snake.head_direction(), Direction::Right);
}

#[test]
fn move_forward_shifts_the_body_and_keeps_its_length() {
    let mut snake = Snake::new(5, 5);
    snake.move_forward(None);
    assert_eq!(snake.cells(), vec![(6, 5), (5, 5), (4, 5)]);
    snake.move_forward(Some(Direction::Down));
    assert_eq!(snake.cells(), vec![(6, 6), (6, 5), (5, 5)]);
    assert_eq!(snake.head_direction(), Direction::Down);
    snake.move_forward(None);
    assert_eq!(snake.cells(), vec![(6, 7), (6, 6), (6, 5)]);
    assert_eq!(snake.cells().len(), 3);
}

#[test]
fn move_forward_adopts_whatever_direction_it_is_given() {
    let mut snake = Snake::new(5, 5);
    snake.move_forward(Some(Direction::Left));
    assert_eq!(snake.head_direction(), Direction::Left);
    assert_eq!(snake.cells(), vec![(4, 5), (5, 5), (4, 5)]);
}

#[test]
fn restore_tail_puts_back_the_cell_last_dropped() {
    let mut snake = Snake::new(5, 5);
    snake.move_forward(None);
    snake.restore_tail();
    assert_eq!(snake.cells(), vec![(6, 5), (5, 5), (4, 5), (3, 5)]);
    snake.move_forward(Some(Direction::Up));
    assert_eq!(snake.cells(), vec![(6, 4), (6, 5), (5, 5), (4, 5)]);
    snake.restore_tail();
    assert_eq!(snake.cells(), vec![(6, 4), (6, 5), (5, 5), (4, 5), (3, 5)]);
}

#[test]
fn growth_per_move_is_nought_or_one() {
    let mut snake = Snake::new(10, 10);
    let turns = [Direction::Down, Direction::Down, Direction::Right, Direction::Up, Direction::Up];
    for (i, &turn) in turns.iter().enumerate() {
        let before = snake.cells().len();
        snake.move_forward(Some(turn));
        assert_eq!(snake.cells().len(), before);
        if i % 2 == 0 {
            snake.restore_tail();
            assert_eq!(snake.cells().len(), before + 1);
        }
    }
    assert_eq!(snake.cells().len(), 6);
}

#[test]
fn overlap_tail_leaves_the_head_out() {
    let snake = Snake::new(5, 5);
    assert!(!snake.overlap_tail(5, 5));
    assert!(snake.overlap_tail(4, 5));
    assert!(snake.overlap_tail(3, 5));
    assert!(!snake.overlap_tail(2, 5));
    assert!(!snake.overlap_tail(6, 5));
    assert!(!snake.overlap_tail(4, 4));
}

#[test]
fn occupies_counts_the_head_in() {
    let snake = Snake::new(5, 5);
    assert!(snake.occupies(5, 5));
    assert!(snake.occupies(4, 5));
    assert!(snake.occupies(3, 5));
    assert!(!snake.occupies(6, 5));
    assert!(!snake.occupies(5, 4));
}

#[test]
fn head_is_off_the_tail_after_a_move_onto_a_clear_cell() {
    let mut snake = Snake::new(10, 10);
    let route = [
        Direction::Right,
        Direction::Down,
        Direction::Down,
        Direction::Left,
        Direction::Left,
        Direction::Up,
        Direction::Left,
        Direction::Down,
        Direction::Right,
    ];
    let mut moves = 0;
    for (i, &dir) in route.iter().enumerate() {
        let (nx, ny) = snake.next_head(Some(dir));
        if snake.overlap_tail(nx, ny) {
            continue;
        }
        snake.move_forward(Some(dir));
        moves += 1;
        let (hx, hy) = snake.head_position();
        assert!(!snake.overlap_tail(hx, hy));
        if i % 3 == 0 {
            snake.restore_tail();
            let (hx, hy) = snake.head_position();
            assert!(!snake.overlap_tail(hx, hy));
        }
    }
    assert!(moves >= 8);
}

#[test]
fn opposite_pairs_up_with_down_and_left_with_right() {
    assert_eq!(Direction::Up.opposite(), Direction::Down);
    assert_eq!(Direction::Down.opposite(), Direction::Up);
    assert_eq!(Direction::Left.opposite(), Direction::Right);
    assert_eq!(Direction::Right.opposite(), Direction::Left);
    for &d in &[Direction::Up, Direction::Down, Direction::Left, Direction::Right] {
        assert_eq!(d.opposite().opposite(), d);
        assert_ne!(d.opposite(), d);
    }
}
