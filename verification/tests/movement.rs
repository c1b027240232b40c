use snake_core::grid::{Direction, GridCoordinate};
use snake_core::snake::{BodyPart, Head, Snake};

fn spawn(x: i32, y: i32, direction: Direction, body_cells: &[(i32, i32)], interval_ms: u64) -> Snake {
    let head = Head { position: GridCoordinate { x, y }, direction };
    let mut body: Vec<BodyPart> = Vec::new();
    for &(bx, by) in body_cells {
        body.push(BodyPart { position: GridCoordinate { x: bx, y: by } });
    }
    Snake::new(head, body, interval_ms)
}

#[test]
fn right_tick_moves_head_and_keeps_offsets() {
    let mut s = spawn(5, 5, Direction::Right, &[(4, 5), (3, 5)], 1000);
    s.tick(1000);
    assert_eq!(s.head.position, GridCoordinate { x: 6, y: 5 });
    assert_eq!(s.body[0].position, GridCoordinate { x: 5, y: 5 });
    assert_eq!(s.body[1].position, GridCoordinate { x: 4, y: 5 });
    // relative offsets from the head are unchanged
    assert_eq!(s.body[0].position.x - s.head.position.x, -1);
    assert_eq!(s.body[1].position.x - s.head.position.x, -2);
    assert_eq!(s.body[0].position.y - s.head.position.y, 0);
}

#[test]
fn left_tick_moves_head_and_keeps_offsets() {
    let mut s = spawn(-7, 2, Direction::Left, &[(-6, 2)], 1000);
    s.tick(1000);
    assert_eq!(s.head.position, GridCoordinate { x: -8, y: 2 });
    assert_eq!(s.body[0].position, GridCoordinate { x: -7, y: 2 });
    assert_eq!(s.body[0].position.x - s.head.position.x, 1);
}

#[test]
fn up_and_down_both_increment_y() {
    let mut up = spawn(0, 0, Direction::Up, &[(0, -1)], 1000);
    let mut down = spawn(0, 0, Direction::Down, &[(0, -1)], 1000);
    up.tick(1000);
    down.tick(1000);
    assert_eq!(up.head.position, GridCoordinate { x: 0, y: 1 });
    assert_eq!(down.head.position, GridCoordinate { x: 0, y: 1 });
    assert_eq!(up.body[0].position, GridCoordinate { x: 0, y: 0 });
    assert_eq!(down.body[0].position, GridCoordinate { x: 0, y: 0 });
}

#[test]
fn subinterval_ticks_accumulate_without_mutation() {
    let mut s = spawn(3, 1, Direction::Right, &[(2, 1)], 1000);
    for _ in 0..3 {
        s.tick(300);
        assert_eq!(s.head.position, GridCoordinate { x: 3, y: 1 });
        assert_eq!(s.body[0].position, GridCoordinate { x: 2, y: 1 });
    }
    assert_eq!(s.timer.elapsed_ms, 900);
    // the fourth pass reaches the cumulative interval and moves the snake
    s.tick(100);
    assert_eq!(s.head.position, GridCoordinate { x: 4, y: 1 });
    assert_eq!(s.body[0].position, GridCoordinate { x: 3, y: 1 });
    assert_eq!(s.timer.elapsed_ms, 0);
}

#[test]
fn boundary_exact_interval_fires_once() {
    let mut s = spawn(0, 0, Direction::Right, &[], 1000);
    s.tick(1000);
    assert_eq!(s.head.position, GridCoordinate { x: 1, y: 0 });
    assert_eq!(s.timer.elapsed_ms, 0);
}

#[test]
fn surplus_past_the_interval_is_retained() {
    let mut s = spawn(0, 0, Direction::Right, &[], 1000);
    s.tick(1700);
    // exactly one step per tick call; the 700 ms surplus stays accumulated
    assert_eq!(s.head.position, GridCoordinate { x: 1, y: 0 });
    assert_eq!(s.timer.elapsed_ms, 700);
    s.tick(300);
    assert_eq!(s.head.position, GridCoordinate { x: 2, y: 0 });
    assert_eq!(s.timer.elapsed_ms, 0);
}

#[test]
fn zero_elapsed_tick_is_a_noop_below_interval() {
    let mut s = spawn(9, 9, Direction::Down, &[(9, 8)], 1000);
    s.tick(0);
    assert_eq!(s.head.position, GridCoordinate { x: 9, y: 9 });
    assert_eq!(s.body[0].position, GridCoordinate { x: 9, y: 8 });
    assert_eq!(s.timer.elapsed_ms, 0);
}

#[test]
fn empty_body_snake_ticks() {
    let mut s = spawn(1, 2, Direction::Up, &[], 500);
    s.tick(500);
    assert_eq!(s.head.position, GridCoordinate { x: 1, y: 3 });
    assert!(s.body.is_empty());
}

#[test]
fn direction_and_interval_are_never_touched() {
    let mut s = spawn(0, 0, Direction::Left, &[(1, 0)], 250);
    s.tick(100);
    s.tick(200);
    assert_eq!(s.head.direction, Direction::Left);
    assert_eq!(s.timer.interval_ms, 250);
}

#[test]
fn end_to_end_scenario_one_full_interval() {
    let mut s = spawn(3, 1, Direction::Right, &[(2, 1), (1, 1)], 1000);
    s.tick(1000);
    assert_eq!(s.head.position, GridCoordinate { x: 4, y: 1 });
    assert_eq!(s.body[0].position, GridCoordinate { x: 3, y: 1 });
    assert_eq!(s.body[1].position, GridCoordinate { x: 2, y: 1 });
}
