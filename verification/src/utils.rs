//! Random placement and small geometric helpers.

use vstd::prelude::*;
use crate::constants::{SNAKE_H, SNAKE_W, WINDOW_H, WINDOW_W};
use crate::geometry::{Point, Rect};

verus! {

/// `rand::random_range` on the half-open range `0..bound`, drawn from the
/// thread-local generator: some value of the range. An empty range makes it
/// panic, so `bound` must be positive.
#[verifier::external_body]
fn random_below(bound: i32) -> (r: i32)
    requires
        bound > 0,
    ensures
        0 <= r < bound,
{
    rand::random_range(0..bound)
}

/// `rand::random_ratio`: a coin that shows `true` with probability
/// `numerator / denominator`. It is certain to be `true` when the two are
/// equal and certain to be `false` when `numerator` is 0; it panics when
/// `denominator` is 0 or smaller than `numerator`.
#[verifier::external_body]
pub(crate) fn random_ratio(numerator: u32, denominator: u32) -> (r: bool)
    requires
        denominator > 0,
        numerator <= denominator,
    ensures
        numerator == denominator ==> r,
        numerator == 0 ==> !r,
{
    rand::random_ratio(numerator, denominator)
}

/// The upper left corner of the cell in column `column` and row `row`.
pub fn position_of_cell(column: i32, row: i32) -> (p: Point)
    ensures
        p == Point::clamped(column * SNAKE_W, row * SNAKE_H),
        0 <= column < WINDOW_W / SNAKE_W && 0 <= row < WINDOW_H / SNAKE_H ==> p.on_grid(),
{
    let x: i64 = column as i64 * SNAKE_W as i64;
    let y: i64 = row as i64 * SNAKE_H as i64;
    Point { x: crate::geometry::clamp_to_coord(x), y: crate::geometry::clamp_to_coord(y) }
}

/// The upper left corner of a cell of the playing field, chosen at random.
pub fn random_position_on_screen() -> (p: Point)
    ensures
        p.on_grid(),
{
    let x: i32 = random_below((WINDOW_W / SNAKE_W) as i32);
    let y: i32 = random_below((WINDOW_H / SNAKE_H) as i32);
    position_of_cell(x, y)
}

/// The rectangle of width `w` and height `h` whose upper left corner is
/// `point`.
pub fn rect_from_point(point: &Point, w: u32, h: u32) -> (r: Rect)
    ensures
        r == Rect::clamped(point.x as int, point.y as int, w as int, h as int),
{
    Rect::new(point.x, point.y, w, h)
}

} // verus!
