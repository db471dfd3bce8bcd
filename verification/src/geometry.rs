//! Points, rectangles and headings on the pixel grid.

use vstd::prelude::*;
use crate::constants::{SNAKE_H, SNAKE_W, WINDOW_H, WINDOW_W};

verus! {

/// Smallest coordinate that a point or rectangle keeps.
pub const MIN_COORD: i32 = -1073741824;

/// Largest coordinate, and largest extent, that a point or rectangle keeps.
pub const MAX_COORD: i32 = 1073741823;

/// The coordinate nearest to `v` within `[MIN_COORD, MAX_COORD]`.
pub open spec fn clamp_coord(v: int) -> int {
    if v > MAX_COORD {
        MAX_COORD as int
    } else if v < MIN_COORD {
        MIN_COORD as int
    } else {
        v
    }
}

/// The extent nearest to `v` within `[1, MAX_COORD]`.
pub open spec fn clamp_size(v: int) -> int {
    if v <= 0 {
        1
    } else if v > MAX_COORD {
        MAX_COORD as int
    } else {
        v
    }
}

/// Saturates a wide intermediate result into the coordinate range.
pub fn clamp_to_coord(v: i64) -> (r: i32)
    ensures
        r == clamp_coord(v as int),
{
    if v > MAX_COORD as i64 {
        MAX_COORD
    } else if v < MIN_COORD as i64 {
        MIN_COORD
    } else {
        v as i32
    }
}

/// A position in pixels.
#[derive(Clone, Copy, PartialEq, Eq, Structural, Debug)]
pub struct Point {
    pub x: i32,
    pub y: i32,
}

impl Point {
    /// Both coordinates lie in the range that `new` keeps.
    pub open spec fn in_range(self) -> bool {
        &&& MIN_COORD <= self.x <= MAX_COORD
        &&& MIN_COORD <= self.y <= MAX_COORD
    }

    /// The point nearest to `(x, y)` with both coordinates in range.
    pub open spec fn clamped(x: int, y: int) -> Point {
        Point { x: clamp_coord(x) as i32, y: clamp_coord(y) as i32 }
    }

    /// Creates a point, saturating each coordinate into
    /// `[MIN_COORD, MAX_COORD]`.
    pub fn new(x: i32, y: i32) -> (p: Point)
        ensures
            p == Point::clamped(x as int, y as int),
            p.in_range(),
    {
        Point { x: clamp_to_coord(x as i64), y: clamp_to_coord(y as i64) }
    }

    /// The point lies inside the playing field.
    pub open spec fn in_grid(self) -> bool {
        &&& 0 <= self.x < WINDOW_W
        &&& 0 <= self.y < WINDOW_H
    }

    /// The point is the upper left corner of a cell of the playing field.
    pub open spec fn on_grid(self) -> bool {
        &&& self.in_grid()
        &&& (self.x as int) % (SNAKE_W as int) == 0
        &&& (self.y as int) % (SNAKE_H as int) == 0
    }

    /// The point reached from `self` by one cell along `heading`, with
    /// wrap-around at the borders of the playing field.
    pub open spec fn moved(self, heading: Vector2D) -> Point {
        Point {
            x: wrap_coord(self.x + heading.x * SNAKE_W, WINDOW_W as int, SNAKE_W as int) as i32,
            y: wrap_coord(self.y + heading.y * SNAKE_H, WINDOW_H as int, SNAKE_H as int) as i32,
        }
    }

    /// The point `steps` cells behind `self` for something travelling along
    /// `heading`, saturated into the coordinate range. No wrap-around is
    /// applied.
    pub open spec fn behind(self, heading: Vector2D, steps: int) -> Point {
        Point::clamped(
            self.x - SNAKE_W * heading.x * steps,
            self.y - SNAKE_H * heading.y * steps,
        )
    }

    /// Moves one cell along `heading`, wrapping around the playing field.
    pub fn step(self, heading: Vector2D) -> (p: Point)
        ensures
            p == self.moved(heading),
            p.in_grid(),
    {
        let x: i64 = self.x as i64 + scaled(heading.x, SNAKE_W, 1);
        let y: i64 = self.y as i64 + scaled(heading.y, SNAKE_H, 1);
        Point {
            x: wrap_to_extent(x, WINDOW_W, SNAKE_W),
            y: wrap_to_extent(y, WINDOW_H, SNAKE_H),
        }
    }

    /// The position `steps` cells behind this one along `heading`.
    pub fn trailing(self, heading: Vector2D, steps: u8) -> (p: Point)
        ensures
            p == self.behind(heading, steps as int),
            p.in_range(),
    {
        let dx: i64 = scaled(heading.x, SNAKE_W, steps);
        let dy: i64 = scaled(heading.y, SNAKE_H, steps);
        Point { x: clamp_to_coord(self.x as i64 - dx), y: clamp_to_coord(self.y as i64 - dy) }
    }
}

/// The displacement, in pixels, of `steps` cells of length `cell` along a
/// heading component.
fn scaled(component: i32, cell: u32, steps: u8) -> (d: i64)
    requires
        cell <= 0x1_0000,
    ensures
        d == cell * component * steps,
        -0x80_0000_0000_0000 <= d <= 0x80_0000_0000_0000,
{
    assert(-0x8000_0000_0000 <= cell * component <= 0x8000_0000_0000) by (nonlinear_arith)
        requires
            0 <= cell <= 0x1_0000,
            -0x8000_0000 <= component <= 0x8000_0000,
    ;
    let per_step: i64 = cell as i64 * component as i64;
    assert(-0x80_0000_0000_0000 <= per_step * steps <= 0x80_0000_0000_0000) by (nonlinear_arith)
        requires
            -0x8000_0000_0000 <= per_step <= 0x8000_0000_0000,
            0 <= steps <= 0x100,
    ;
    per_step * steps as i64
}

/// Where a coordinate `v` ends up on an axis of length `extent` made of
/// cells of length `cell`: at or past the far border it re-enters at 0,
/// below 0 it re-enters at the last cell.
pub open spec fn wrap_coord(v: int, extent: int, cell: int) -> int {
    if v >= extent {
        0
    } else if v < 0 {
        extent - cell
    } else {
        v
    }
}

/// Executable form of `wrap_coord`.
fn wrap_to_extent(v: i64, extent: u32, cell: u32) -> (r: i32)
    requires
        0 < cell <= extent <= i32::MAX,
    ensures
        r == wrap_coord(v as int, extent as int, cell as int),
        0 <= r < extent,
{
    if v >= extent as i64 {
        0
    } else if v < 0 {
        (extent - cell) as i32
    } else {
        v as i32
    }
}

/// A heading or displacement, in cells.
///
/// Headings are by convention one of the four axis-aligned unit vectors,
/// with `y` growing downwards. Nothing enforces this.
#[derive(Clone, Copy, PartialEq, Eq, Structural, Debug)]
pub struct Vector2D {
    pub x: i32,
    pub y: i32,
}

impl Vector2D {
    pub fn new(x: i32, y: i32) -> (v: Vector2D)
        ensures
            v == (Vector2D { x, y }),
    {
        Vector2D { x, y }
    }

    pub fn zero() -> (v: Vector2D)
        ensures
            v == (Vector2D { x: 0, y: 0 }),
    {
        Vector2D { x: 0, y: 0 }
    }

    pub fn copy(&self) -> (v: Vector2D)
        ensures
            v == *self,
    {
        Vector2D::new(self.x, self.y)
    }

    /// The vector is one of the four axis-aligned unit vectors.
    pub open spec fn is_unit(self) -> bool {
        ||| (self.x == 1 && self.y == 0)
        ||| (self.x == -1 && self.y == 0)
        ||| (self.x == 0 && self.y == 1)
        ||| (self.x == 0 && self.y == -1)
    }

    /// `other` is exactly the reverse of `self`.
    pub open spec fn opposes(self, other: Vector2D) -> bool {
        self.x + other.x == 0 && self.y + other.y == 0
    }

    /// Tells whether `other` is exactly the reverse of `self`.
    pub fn is_opposite(&self, other: &Vector2D) -> (b: bool)
        ensures
            b == self.opposes(*other),
    {
        self.x as i64 + other.x as i64 == 0 && self.y as i64 + other.y as i64 == 0
    }
}

/// Wrap invariant: wherever a point lies and whatever the heading, one
/// movement step ends inside the playing field.
pub proof fn lemma_moved_in_grid(position: Point, heading: Vector2D)
    ensures
        position.moved(heading).in_grid(),
{
}

/// A point on a cell of the playing field that moves along a unit heading
/// ends on a cell of the playing field: it advances by exactly one cell, or
/// re-enters on the first or last cell of the row or column that it left.
pub proof fn lemma_moved_on_grid(position: Point, heading: Vector2D)
    requires
        position.on_grid(),
        heading.is_unit(),
    ensures
        position.moved(heading).on_grid(),
        position.moved(heading).x == position.x + heading.x * SNAKE_W
            || position.moved(heading).x == 0
            || position.moved(heading).x == WINDOW_W - SNAKE_W,
        position.moved(heading).y == position.y + heading.y * SNAKE_H
            || position.moved(heading).y == 0
            || position.moved(heading).y == WINDOW_H - SNAKE_H,
{
}

/// Behind a point inside the playing field, along a unit heading, nothing
/// is saturated: the point `steps` cells behind lies exactly `steps` cells
/// away, on or off the field.
pub proof fn lemma_behind_exact(position: Point, heading: Vector2D, steps: int)
    requires
        position.in_grid(),
        heading.is_unit(),
        0 <= steps <= u8::MAX,
    ensures
        position.behind(heading, steps).x == position.x - SNAKE_W * heading.x * steps,
        position.behind(heading, steps).y == position.y - SNAKE_H * heading.y * steps,
{
    assert(-u8::MAX <= heading.x * steps <= u8::MAX && -u8::MAX <= heading.y * steps <= u8::MAX)
        by (nonlinear_arith)
        requires
            -1 <= heading.x <= 1,
            -1 <= heading.y <= 1,
            0 <= steps <= u8::MAX,
    ;
    assert(SNAKE_W * heading.x * steps == SNAKE_W * (heading.x * steps)) by (nonlinear_arith);
    assert(SNAKE_H * heading.y * steps == SNAKE_H * (heading.y * steps)) by (nonlinear_arith);
}

/// A decoded directional command.
#[derive(Clone, Copy, PartialEq, Eq, Structural, Debug)]
pub enum Direction {
    Up,
    Down,
    Left,
    Right,
}

impl Direction {
    /// The unit heading that the direction stands for.
    pub open spec fn heading(self) -> Vector2D {
        match self {
            Direction::Up => Vector2D { x: 0, y: -1i32 },
            Direction::Down => Vector2D { x: 0, y: 1 },
            Direction::Left => Vector2D { x: -1i32, y: 0 },
            Direction::Right => Vector2D { x: 1, y: 0 },
        }
    }

    pub fn vector(self) -> (v: Vector2D)
        ensures
            v == self.heading(),
            v.is_unit(),
    {
        match self {
            Direction::Up => Vector2D::new(0, -1),
            Direction::Down => Vector2D::new(0, 1),
            Direction::Left => Vector2D::new(-1, 0),
            Direction::Right => Vector2D::new(1, 0),
        }
    }
}

/// A non-empty axis-aligned rectangle, in pixels.
#[derive(Clone, Copy, PartialEq, Eq, Structural, Debug)]
pub struct Rect {
    pub x: i32,
    pub y: i32,
    pub w: u32,
    pub h: u32,
}

impl Rect {
    /// The rectangle nearest to the one asked for whose corner lies in the
    /// coordinate range and whose sides have a length in `[1, MAX_COORD]`.
    pub open spec fn clamped(x: int, y: int, width: int, height: int) -> Rect {
        Rect {
            x: clamp_coord(x) as i32,
            y: clamp_coord(y) as i32,
            w: clamp_size(width) as u32,
            h: clamp_size(height) as u32,
        }
    }

    /// Creates a rectangle with its upper left corner at `(x, y)`. The corner
    /// is saturated into the coordinate range; a side of length 0 becomes 1
    /// and a side longer than `MAX_COORD` becomes `MAX_COORD`.
    pub fn new(x: i32, y: i32, width: u32, height: u32) -> (r: Rect)
        ensures
            r == Rect::clamped(x as int, y as int, width as int, height as int),
    {
        Rect {
            x: clamp_to_coord(x as i64),
            y: clamp_to_coord(y as i64),
            w: clamp_to_size(width),
            h: clamp_to_size(height),
        }
    }
}

/// Saturates the length of a side into `[1, MAX_COORD]`.
pub fn clamp_to_size(v: u32) -> (r: u32)
    ensures
        r == clamp_size(v as int),
{
    if v == 0 {
        1
    } else if v > MAX_COORD as u32 {
        MAX_COORD as u32
    } else {
        v
    }
}

} // verus!
