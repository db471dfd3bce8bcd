//! The things on the playing field: snake cells and collectibles.

use vstd::prelude::*;
use crate::constants::{EGG_CREDIT, SNAKE_H, SNAKE_W, SPECIAL_EGG_CREDIT};
use crate::geometry::{Point, Rect, Vector2D};
use crate::utils::rect_from_point;

verus! {

/// One cell of the snake's body.
#[derive(Clone, Copy, PartialEq, Eq, Structural, Debug)]
pub struct SnakeCell {
    pub position: Point,
    pub direction: Vector2D,
    /// A swallowed egg is passing through this cell. Purely cosmetic.
    pub just_swallowed_egg: bool,
}

impl SnakeCell {
    pub fn new(pos: Point, direction: Vector2D) -> (cell: SnakeCell)
        ensures
            cell == (SnakeCell { position: pos, direction, just_swallowed_egg: false }),
    {
        SnakeCell { position: pos, direction, just_swallowed_egg: false }
    }

    pub fn copy(&self) -> (cell: SnakeCell)
        ensures
            cell == *self,
    {
        SnakeCell {
            position: self.position,
            direction: self.direction.copy(),
            just_swallowed_egg: self.just_swallowed_egg,
        }
    }

    /// The cell after one movement step along `heading`: it takes the
    /// heading, moves by one cell with wrap-around and keeps its marker.
    pub open spec fn moved(self, heading: Vector2D) -> SnakeCell {
        SnakeCell {
            position: self.position.moved(heading),
            direction: heading,
            just_swallowed_egg: self.just_swallowed_egg,
        }
    }

    /// The cell that is appended `steps` cells behind `self` when the snake
    /// grows: it shares the heading and carries no marker.
    pub open spec fn follower(self, steps: int) -> SnakeCell {
        SnakeCell {
            position: self.position.behind(self.direction, steps),
            direction: self.direction,
            just_swallowed_egg: false,
        }
    }
}

/// What a collectible is.
#[derive(Clone, Copy, PartialEq, Eq, Structural, Debug)]
pub enum CollectibleType {
    Egg { special: bool },
    /// Takes part in no rule.
    Virus,
}

/// A pickup on the playing field.
#[derive(Clone, Copy, PartialEq, Eq, Structural, Debug)]
pub struct Collectible {
    pub position: Point,
    pub class: CollectibleType,
}

impl Collectible {
    /// The cell-sized rectangle that the collectible occupies.
    pub fn rect(&self) -> (r: Rect)
        ensures
            r == Rect::clamped(
                self.position.x as int,
                self.position.y as int,
                SNAKE_W as int,
                SNAKE_H as int,
            ),
    {
        rect_from_point(&self.position, SNAKE_W, SNAKE_H)
    }

    /// Score and growth that the collectible grants when it is eaten.
    pub open spec fn credit(self) -> nat {
        if self.class == (CollectibleType::Egg { special: true }) {
            SPECIAL_EGG_CREDIT as nat
        } else {
            EGG_CREDIT as nat
        }
    }

    /// Executable form of `credit`.
    pub fn credit_value(&self) -> (credit: u8)
        ensures
            credit == self.credit(),
    {
        match self.class {
            CollectibleType::Egg { special: true } => SPECIAL_EGG_CREDIT,
            _ => EGG_CREDIT,
        }
    }
}

} // verus!
