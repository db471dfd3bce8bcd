use snake_game::geometry::{Point, Vector2D};
use snake_game::objs::SnakeCell;
use snake_game::snake::Snake;

const R: Vector2D = Vector2D { x: 1, y: 0 };
const L: Vector2D = Vector2D { x: -1, y: 0 };
const U: Vector2D = Vector2D { x: 0, y: -1 };
const D: Vector2D = Vector2D { x: 0, y: 1 };

fn body(cells: &[(i32, i32, Vector2D)]) -> Snake {
    let cells: Vec<SnakeCell> = cells
        .iter()
        .map(|&(x, y, heading)| SnakeCell::new(Point::new(x, y), heading))
        .collect();
    Snake::from_cells(cells).unwrap()
}

fn headings(snake: &Snake) -> Vec<Vector2D> {
    snake.cells().iter().map(|cell| cell.direction).collect()
}

fn positions(snake: &Snake) -> Vec<(i32, i32)> {
    snake.cells().iter().map(|cell| (cell.position.x, cell.position.y)).collect()
}

fn markers(snake: &Snake) -> Vec<bool> {
    snake.cells().iter().map(|cell| cell.just_swallowed_egg).collect()
}

fn marked_body(marks: &[bool]) -> Snake {
    let cells: Vec<SnakeCell> = marks
        .iter()
        .enumerate()
        .map(|(i, &mark)| SnakeCell {
            position: Point::new(200 - 20 * i as i32, 100),
            direction: R,
            just_swallowed_egg: mark,
        })
        .collect();
    Snake::from_cells(cells).unwrap()
}

#[test]
fn starting_snake_is_two_cells_on_the_origin_heading_right() {
    let snake = Snake::starting();
    assert_eq!(snake.len(), 2);
    assert_eq!(positions(&snake), vec![(0, 0), (0, 0)]);
    assert_eq!(headings(&snake), vec![R, R]);
    assert_eq!(markers(&snake), vec![false, false]);
}

#[test]
fn new_snake_has_one_cell() {
    let head = SnakeCell::new(Point::new(60, 80), D);
    let snake = Snake::new(head);
    assert_eq!(snake.len(), 1);
    assert_eq!(snake.head(), head);
    assert_eq!(snake.tail(), head);
    assert_eq!(snake.cell(0), Some(head));
    assert_eq!(snake.cell(1), None);
}

#[test]
fn from_cells_refuses_an_empty_body() {
    assert!(Snake::from_cells(Vec::new()).is_none());
}

#[test]
fn from_cells_keeps_the_order() {
    let snake = body(&[(40, 0, R), (20, 0, U), (0, 0, D)]);
    assert_eq!(snake.len(), 3);
    assert_eq!(snake.head().position, Point { x: 40, y: 0 });
    assert_eq!(snake.tail().position, Point { x: 0, y: 0 });
    assert_eq!(headings(&snake), vec![R, U, D]);
    assert_eq!(snake.cell(1).unwrap().direction, U);
    assert_eq!(snake.cell(3), None);
}

#[test]
fn a_turn_shows_in_the_next_cell_after_each_step() {
    let mut snake = body(&[(40, 0, R), (20, 0, R), (0, 0, R)]);
    assert!(snake.steer(U));
    assert_eq!(headings(&snake), vec![U, R, R]);
    snake.advance();
    assert_eq!(headings(&snake), vec![U, U, R]);
    snake.advance();
    assert_eq!(headings(&snake), vec![U, U, U]);
}

#[test]
fn headings_travel_one_cell_per_step() {
    let mut snake = body(&[(200, 200, R), (180, 200, U), (160, 200, L), (140, 200, D)]);
    snake.propagate_headings();
    assert_eq!(headings(&snake), vec![R, R, U, L]);
    assert_eq!(positions(&snake), vec![(200, 200), (180, 200), (160, 200), (140, 200)]);
    snake.propagate_headings();
    assert_eq!(headings(&snake), vec![R, R, R, U]);
}

#[test]
fn cells_move_along_the_heading_they_were_handed() {
    let mut snake = body(&[(200, 200, D), (200, 180, R), (180, 180, R)]);
    snake.advance();
    assert_eq!(headings(&snake), vec![D, D, R]);
    assert_eq!(positions(&snake), vec![(200, 220), (200, 200), (200, 180)]);
}

#[test]
fn move_cells_uses_each_cells_own_heading() {
    let mut snake = body(&[(200, 200, R), (180, 200, U), (160, 200, L), (140, 200, D)]);
    snake.move_cells();
    assert_eq!(headings(&snake), vec![R, U, L, D]);
    assert_eq!(positions(&snake), vec![(220, 200), (180, 180), (140, 200), (140, 220)]);
}

#[test]
fn advance_wraps_every_cell_on_its_own() {
    let mut snake = body(&[(780, 0, R), (760, 0, R)]);
    snake.advance();
    assert_eq!(positions(&snake), vec![(0, 0), (780, 0)]);
    snake.advance();
    assert_eq!(positions(&snake), vec![(20, 0), (0, 0)]);
}

#[test]
fn advance_keeps_every_cell_inside_the_field() {
    let mut snake = body(&[(0, 0, L), (-60, 0, U), (5000, 7000, D), (400, 580, D), (0, 300, R)]);
    for _ in 0..100 {
        snake.advance();
        for (x, y) in positions(&snake) {
            assert!(0 <= x && x < 800);
            assert!(0 <= y && y < 600);
        }
    }
}

#[test]
fn advance_keeps_the_markers() {
    let mut snake = marked_body(&[true, false, true]);
    snake.advance();
    assert_eq!(markers(&snake), vec![true, false, true]);
}

#[test]
fn reversal_is_refused_for_two_cells() {
    let mut snake = body(&[(20, 0, R), (0, 0, R)]);
    assert!(!snake.steer(L));
    assert_eq!(headings(&snake), vec![R, R]);
}

#[test]
fn reversal_is_refused_on_every_axis() {
    for (heading, reverse) in [(R, L), (L, R), (U, D), (D, U)] {
        let mut snake = body(&[(100, 100, heading), (100, 100, heading)]);
        assert!(!snake.steer(reverse));
        assert_eq!(snake.head().direction, heading);
    }
}

#[test]
fn single_cell_may_reverse() {
    let mut snake = Snake::new(SnakeCell::new(Point::new(100, 100), R));
    assert!(snake.steer(L));
    assert_eq!(headings(&snake), vec![L]);
    assert_eq!(positions(&snake), vec![(100, 100)]);
}

#[test]
fn steer_changes_only_the_heads_heading() {
    let mut snake = body(&[(40, 0, R), (20, 0, R), (0, 0, R)]);
    assert!(snake.steer(D));
    assert_eq!(headings(&snake), vec![D, R, R]);
    assert_eq!(positions(&snake), vec![(40, 0), (20, 0), (0, 0)]);
    assert!(snake.steer(D));
    assert_eq!(headings(&snake), vec![D, R, R]);
}

#[test]
fn steer_goes_by_the_head_and_not_by_the_body() {
    let mut snake = body(&[(40, 0, U), (20, 0, R)]);
    assert!(snake.steer(L));
    assert_eq!(headings(&snake), vec![L, R]);
    assert!(!snake.steer(R));
    assert_eq!(headings(&snake), vec![L, R]);
}

#[test]
fn mark_head_marks_the_head_only() {
    let mut snake = body(&[(40, 0, R), (20, 0, R), (0, 0, R)]);
    snake.mark_head();
    assert_eq!(markers(&snake), vec![true, false, false]);
    assert_eq!(positions(&snake), vec![(40, 0), (20, 0), (0, 0)]);
}

#[test]
fn grow_by_one_appends_behind_the_tail() {
    let mut snake = body(&[(120, 40, R), (100, 40, R)]);
    snake.grow(1);
    assert_eq!(positions(&snake), vec![(120, 40), (100, 40), (80, 40)]);
    assert_eq!(headings(&snake), vec![R, R, R]);
    assert_eq!(markers(&snake), vec![false, false, false]);
}

#[test]
fn grow_by_three_lines_the_new_cells_up() {
    let mut snake = body(&[(120, 40, R), (120, 60, U)]);
    snake.grow(3);
    assert_eq!(
        positions(&snake),
        vec![(120, 40), (120, 60), (120, 80), (120, 100), (120, 120)]
    );
    assert_eq!(headings(&snake), vec![R, U, U, U, U]);
}

#[test]
fn grow_goes_by_the_former_tail() {
    let mut snake = body(&[(100, 100, L)]);
    snake.mark_head();
    snake.grow(2);
    assert_eq!(positions(&snake), vec![(100, 100), (120, 100), (140, 100)]);
    assert_eq!(markers(&snake), vec![true, false, false]);
    snake.grow(1);
    assert_eq!(positions(&snake), vec![(100, 100), (120, 100), (140, 100), (160, 100)]);
}

#[test]
fn grow_may_leave_the_field_until_the_next_step() {
    let mut snake = Snake::starting();
    snake.grow(1);
    assert_eq!(positions(&snake), vec![(0, 0), (0, 0), (-20, 0)]);
    snake.advance();
    assert_eq!(positions(&snake), vec![(20, 0), (20, 0), (0, 0)]);
}

#[test]
fn grow_by_nothing_changes_nothing() {
    let mut snake = body(&[(120, 40, R), (100, 40, R)]);
    snake.grow(0);
    assert_eq!(positions(&snake), vec![(120, 40), (100, 40)]);
}

#[test]
fn marker_moves_one_cell_per_step_and_leaves_at_the_tail() {
    let mut snake = marked_body(&[true, false, false]);
    snake.advance_marker();
    assert_eq!(markers(&snake), vec![false, true, false]);
    snake.advance_marker();
    assert_eq!(markers(&snake), vec![false, false, true]);
    snake.advance_marker();
    assert_eq!(markers(&snake), vec![false, false, false]);
}

#[test]
fn neighbouring_markers_merge() {
    let mut snake = marked_body(&[true, true, false]);
    snake.advance_marker();
    assert_eq!(markers(&snake), vec![false, false, true]);
}

#[test]
fn separate_markers_move_together() {
    let mut snake = marked_body(&[true, false, true, false, false]);
    snake.advance_marker();
    assert_eq!(markers(&snake), vec![false, true, false, true, false]);
}

#[test]
fn a_marker_behind_a_marker_is_lost() {
    let mut snake = marked_body(&[false, true, true, true]);
    snake.advance_marker();
    assert_eq!(markers(&snake), vec![false, false, false, false]);
}

#[test]
fn advance_marker_moves_nothing_else() {
    let mut snake = body(&[(40, 0, R), (20, 0, U), (0, 0, D)]);
    snake.mark_head();
    snake.advance_marker();
    assert_eq!(positions(&snake), vec![(40, 0), (20, 0), (0, 0)]);
    assert_eq!(headings(&snake), vec![R, U, D]);
}
