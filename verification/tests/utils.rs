use snake_game::constants::{SNAKE_H, SNAKE_W, WINDOW_H, WINDOW_W};
use snake_game::geometry::{Point, Rect};
use snake_game::objs::{Collectible, CollectibleType, SnakeCell};
use snake_game::geometry::Vector2D;
use snake_game::utils::{position_of_cell, random_position_on_screen, rect_from_point};

#[test]
fn position_of_cell_scales_by_the_cell_size() {
    assert_eq!(position_of_cell(0, 0), Point { x: 0, y: 0 });
    assert_eq!(position_of_cell(2, 0), Point { x: 40, y: 0 });
    assert_eq!(position_of_cell(39, 29), Point { x: 780, y: 580 });
    assert_eq!(position_of_cell(-1, 3), Point { x: -20, y: 60 });
}

#[test]
fn position_of_cell_saturates() {
    assert_eq!(
        position_of_cell(i32::MAX, i32::MIN),
        Point { x: 1073741823, y: -1073741824 }
    );
}

#[test]
fn random_positions_are_cells_of_the_field() {
    for _ in 0..2000 {
        let p = random_position_on_screen();
        assert!(0 <= p.x && p.x < WINDOW_W as i32);
        assert!(0 <= p.y && p.y < WINDOW_H as i32);
        assert_eq!(p.x % SNAKE_W as i32, 0);
        assert_eq!(p.y % SNAKE_H as i32, 0);
    }
}

#[test]
fn random_positions_vary() {
    let first = random_position_on_screen();
    let mut varied = false;
    for _ in 0..200 {
        if random_position_on_screen() != first {
            varied = true;
        }
    }
    assert!(varied);
}

#[test]
fn rect_from_point_puts_the_corner_on_the_point() {
    let p = Point::new(60, 80);
    assert_eq!(rect_from_point(&p, 20, 30), Rect { x: 60, y: 80, w: 20, h: 30 });
    assert_eq!(rect_from_point(&p, 0, 0), Rect { x: 60, y: 80, w: 1, h: 1 });
}

#[test]
fn collectible_rect_is_one_cell() {
    let egg = Collectible {
        position: Point::new(40, 100),
        class: CollectibleType::Egg { special: false },
    };
    assert_eq!(egg.rect(), Rect { x: 40, y: 100, w: SNAKE_W, h: SNAKE_H });
}

#[test]
fn credit_is_three_for_special_eggs_and_one_otherwise() {
    let at = Point::new(0, 0);
    let special = Collectible { position: at, class: CollectibleType::Egg { special: true } };
    let ordinary = Collectible { position: at, class: CollectibleType::Egg { special: false } };
    assert_eq!(special.credit_value(), 3);
    assert_eq!(ordinary.credit_value(), 1);
}

#[test]
fn snake_cell_new_carries_no_marker() {
    let cell = SnakeCell::new(Point::new(20, 40), Vector2D::new(0, 1));
    assert_eq!(cell.position, Point { x: 20, y: 40 });
    assert_eq!(cell.direction, Vector2D { x: 0, y: 1 });
    assert!(!cell.just_swallowed_egg);
}

#[test]
fn snake_cell_copy_is_equal() {
    let mut cell = SnakeCell::new(Point::new(20, 40), Vector2D::new(0, 1));
    cell.just_swallowed_egg = true;
    assert_eq!(cell.copy(), cell);
}
