use snake_game::constants::{SNAKE_H, SNAKE_W, WINDOW_H, WINDOW_W};
use snake_game::geometry::{
    clamp_to_coord, clamp_to_size, Direction, Point, Rect, Vector2D, MAX_COORD, MIN_COORD,
};

const CELL_W: i32 = SNAKE_W as i32;
const CELL_H: i32 = SNAKE_H as i32;
const FIELD_W: i32 = WINDOW_W as i32;
const FIELD_H: i32 = WINDOW_H as i32;

const RIGHT: Vector2D = Vector2D { x: 1, y: 0 };
const LEFT: Vector2D = Vector2D { x: -1, y: 0 };
const UP: Vector2D = Vector2D { x: 0, y: -1 };
const DOWN: Vector2D = Vector2D { x: 0, y: 1 };

#[test]
fn the_field_is_made_of_whole_cells() {
    assert_eq!(SNAKE_W, 20);
    assert_eq!(SNAKE_H, 20);
    assert_eq!(WINDOW_W, 800);
    assert_eq!(WINDOW_H, 600);
    assert_eq!(WINDOW_W % SNAKE_W, 0);
    assert_eq!(WINDOW_H % SNAKE_H, 0);
}

#[test]
fn point_new_keeps_ordinary_coordinates() {
    let p = Point::new(40, -60);
    assert_eq!(p, Point { x: 40, y: -60 });
}

#[test]
fn point_new_saturates_far_coordinates() {
    let p = Point::new(i32::MAX, i32::MIN);
    assert_eq!(p.x, 1073741823);
    assert_eq!(p.y, -1073741824);
    assert_eq!(Point::new(MAX_COORD, MIN_COORD), Point { x: MAX_COORD, y: MIN_COORD });
    assert_eq!(Point::new(MAX_COORD + 1, MIN_COORD - 1), Point { x: MAX_COORD, y: MIN_COORD });
}

#[test]
fn clamp_to_coord_saturates_wide_values() {
    assert_eq!(clamp_to_coord(0), 0);
    assert_eq!(clamp_to_coord(-17), -17);
    assert_eq!(clamp_to_coord(i64::MAX), MAX_COORD);
    assert_eq!(clamp_to_coord(i64::MIN), MIN_COORD);
    assert_eq!(clamp_to_coord(1073741824), 1073741823);
}

#[test]
fn clamp_to_size_keeps_sides_positive_and_bounded() {
    assert_eq!(clamp_to_size(0), 1);
    assert_eq!(clamp_to_size(1), 1);
    assert_eq!(clamp_to_size(20), 20);
    assert_eq!(clamp_to_size(u32::MAX), 1073741823);
}

#[test]
fn step_moves_one_cell_inside_the_field() {
    let p = Point::new(100, 200);
    assert_eq!(p.step(RIGHT), Point { x: 120, y: 200 });
    assert_eq!(p.step(LEFT), Point { x: 80, y: 200 });
    assert_eq!(p.step(UP), Point { x: 100, y: 180 });
    assert_eq!(p.step(DOWN), Point { x: 100, y: 220 });
}

#[test]
fn step_wraps_at_the_right_and_bottom_borders() {
    let last_column = Point::new(FIELD_W - CELL_W, 100);
    assert_eq!(last_column.step(RIGHT), Point { x: 0, y: 100 });
    let last_row = Point::new(100, FIELD_H - CELL_H);
    assert_eq!(last_row.step(DOWN), Point { x: 100, y: 0 });
}

#[test]
fn step_wraps_at_the_left_and_top_borders() {
    let first_column = Point::new(0, 100);
    assert_eq!(first_column.step(LEFT), Point { x: FIELD_W - CELL_W, y: 100 });
    let first_row = Point::new(100, 0);
    assert_eq!(first_row.step(UP), Point { x: 100, y: FIELD_H - CELL_H });
}

#[test]
fn step_wraps_both_axes_at_a_corner() {
    let corner = Point::new(FIELD_W - CELL_W, FIELD_H - CELL_H);
    assert_eq!(corner.step(Vector2D::new(1, 1)), Point { x: 0, y: 0 });
    let origin = Point::new(0, 0);
    assert_eq!(
        origin.step(Vector2D::new(-1, -1)),
        Point { x: FIELD_W - CELL_W, y: FIELD_H - CELL_H }
    );
}

#[test]
fn step_always_lands_inside_the_field() {
    let coordinates = [
        i32::MIN, MIN_COORD, -5000, -20, -1, 0, 1, 19, 20, 400, 779, 780, 799, 800, 801, 5000,
        MAX_COORD, i32::MAX,
    ];
    let components = [i32::MIN, -3, -1, 0, 1, 2, i32::MAX];
    for &x in coordinates.iter() {
        for &y in coordinates.iter() {
            for &hx in components.iter() {
                for &hy in components.iter() {
                    let p = Point { x, y }.step(Vector2D::new(hx, hy));
                    assert!(0 <= p.x && p.x < FIELD_W);
                    assert!(0 <= p.y && p.y < FIELD_H);
                }
            }
        }
    }
}

#[test]
fn step_from_outside_the_field_re_enters_it() {
    assert_eq!(Point::new(-60, 40).step(RIGHT), Point { x: FIELD_W - CELL_W, y: 40 });
    assert_eq!(Point::new(5000, 40).step(LEFT), Point { x: 0, y: 40 });
}

#[test]
fn trailing_lines_up_behind_the_heading() {
    let p = Point::new(100, 200);
    assert_eq!(p.trailing(RIGHT, 1), Point { x: 80, y: 200 });
    assert_eq!(p.trailing(RIGHT, 3), Point { x: 40, y: 200 });
    assert_eq!(p.trailing(LEFT, 2), Point { x: 140, y: 200 });
    assert_eq!(p.trailing(UP, 2), Point { x: 100, y: 240 });
    assert_eq!(p.trailing(DOWN, 1), Point { x: 100, y: 180 });
    assert_eq!(p.trailing(DOWN, 0), p);
}

#[test]
fn trailing_does_not_wrap_and_saturates() {
    assert_eq!(Point::new(0, 0).trailing(RIGHT, 3), Point { x: -60, y: 0 });
    assert_eq!(
        Point::new(0, 0).trailing(Vector2D::new(i32::MAX, i32::MIN), 255),
        Point { x: MIN_COORD, y: MAX_COORD }
    );
}

#[test]
fn vector_constructors() {
    assert_eq!(Vector2D::new(3, -4), Vector2D { x: 3, y: -4 });
    assert_eq!(Vector2D::zero(), Vector2D { x: 0, y: 0 });
    let v = Vector2D::new(7, 9);
    assert_eq!(v.copy(), v);
}

#[test]
fn vectors_oppose_only_their_exact_reverse() {
    assert!(RIGHT.is_opposite(&LEFT));
    assert!(LEFT.is_opposite(&RIGHT));
    assert!(UP.is_opposite(&DOWN));
    assert!(DOWN.is_opposite(&UP));
    assert!(!RIGHT.is_opposite(&RIGHT));
    assert!(!RIGHT.is_opposite(&UP));
    assert!(!RIGHT.is_opposite(&DOWN));
    assert!(!Vector2D::new(1, 1).is_opposite(&LEFT));
    assert!(Vector2D::new(1, 1).is_opposite(&Vector2D::new(-1, -1)));
    assert!(Vector2D::zero().is_opposite(&Vector2D::zero()));
    assert!(!Vector2D::new(i32::MIN, 0).is_opposite(&Vector2D::new(i32::MIN, 0)));
}

#[test]
fn directions_stand_for_unit_headings() {
    assert_eq!(Direction::Up.vector(), UP);
    assert_eq!(Direction::Down.vector(), DOWN);
    assert_eq!(Direction::Left.vector(), LEFT);
    assert_eq!(Direction::Right.vector(), RIGHT);
}

#[test]
fn rect_new_keeps_ordinary_values() {
    assert_eq!(Rect::new(40, 60, 20, 30), Rect { x: 40, y: 60, w: 20, h: 30 });
}

#[test]
fn rect_new_saturates_corner_and_sides() {
    assert_eq!(
        Rect::new(i32::MAX, i32::MIN, 0, u32::MAX),
        Rect { x: 1073741823, y: -1073741824, w: 1, h: 1073741823 }
    );
}
