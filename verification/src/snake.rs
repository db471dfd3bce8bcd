//! The snake's body: an ordered, never empty sequence of cells whose first
//! cell is the head.

use vstd::prelude::*;
use crate::constants::START_LENGTH;
use crate::geometry::{Point, Vector2D};
use crate::objs::SnakeCell;

verus! {

/// A turn to `requested` would fold the head back onto the cell behind it:
/// the body has more than one cell and the head is heading exactly the other
/// way.
pub open spec fn refuses(cells: Seq<SnakeCell>, requested: Vector2D) -> bool {
    cells.len() > 1 && cells[0].direction.opposes(requested)
}

/// The body after the player asked for `requested`: unchanged where the turn
/// is refused, else with the head, and only the head, on the new heading.
pub open spec fn steered(cells: Seq<SnakeCell>, requested: Vector2D) -> Seq<SnakeCell> {
    if refuses(cells, requested) {
        cells
    } else {
        cells.update(0, SnakeCell { direction: requested, ..cells[0] })
    }
}

/// The body with the swallowed-egg marker set on the head.
pub open spec fn marked(cells: Seq<SnakeCell>) -> Seq<SnakeCell> {
    cells.update(0, SnakeCell { just_swallowed_egg: true, ..cells[0] })
}

/// The body after `credit` cells were appended: the new cells line up behind
/// the former tail, one cell further each, and share its heading.
pub open spec fn grown(cells: Seq<SnakeCell>, credit: nat) -> Seq<SnakeCell> {
    cells + Seq::new(credit, |i: int| cells.last().follower(i + 1))
}

/// The body after every cell but the head took the heading of the cell
/// ahead of it, all at once.
pub open spec fn propagated(cells: Seq<SnakeCell>) -> Seq<SnakeCell> {
    Seq::new(
        cells.len(),
        |i: int|
            if i == 0 {
                cells[0]
            } else {
                SnakeCell { direction: cells[i - 1].direction, ..cells[i] }
            },
    )
}

/// The body after every cell moved one cell along its own heading, with
/// wrap-around.
pub open spec fn shifted(cells: Seq<SnakeCell>) -> Seq<SnakeCell> {
    Seq::new(cells.len(), |i: int| cells[i].moved(cells[i].direction))
}

/// The body after one movement step: headings are handed down first, then
/// every cell moves along the heading it now has.
pub open spec fn advanced(cells: Seq<SnakeCell>) -> Seq<SnakeCell> {
    shifted(propagated(cells))
}

/// The body after one step of the swallowed-egg marker: a marked cell loses
/// its marker, and an unmarked cell right behind a marked one gains it.
pub open spec fn bubbled(cells: Seq<SnakeCell>) -> Seq<SnakeCell> {
    Seq::new(
        cells.len(),
        |i: int|
            SnakeCell {
                just_swallowed_egg: i > 0 && cells[i - 1].just_swallowed_egg
                    && !cells[i].just_swallowed_egg,
                ..cells[i]
            },
    )
}

/// The body that a game starts with: `START_LENGTH` cells on the origin,
/// heading right.
pub open spec fn starting_cells() -> Seq<SnakeCell> {
    Seq::new(
        START_LENGTH as nat,
        |i: int|
            SnakeCell {
                position: Point { x: 0, y: 0 },
                direction: Vector2D { x: 1, y: 0 },
                just_swallowed_egg: false,
            },
    )
}

/// Wrap invariant for the body: after a movement step every cell lies inside
/// the playing field, wherever it was and whatever its heading.
pub proof fn lemma_advanced_in_grid(cells: Seq<SnakeCell>)
    ensures
        advanced(cells).len() == cells.len(),
        forall|i: int| 0 <= i < cells.len() ==> (#[trigger] advanced(cells)[i]).position.in_grid(),
{
}

/// Headings travel down the body by one cell per movement step: after a
/// step the head has the heading it had, and every other cell has the
/// heading that the cell ahead of it had before the step. Each cell has
/// moved along the heading that it now has, and kept its marker.
pub proof fn lemma_heading_delay(cells: Seq<SnakeCell>, index: int)
    requires
        0 <= index < cells.len(),
    ensures
        advanced(cells).len() == cells.len(),
        advanced(cells)[index].direction == if index == 0 {
            cells[0].direction
        } else {
            cells[index - 1].direction
        },
        advanced(cells)[index].position == cells[index].position.moved(
            advanced(cells)[index].direction,
        ),
        advanced(cells)[index].just_swallowed_egg == cells[index].just_swallowed_egg,
{
}

/// A turn that the head takes shows in the second cell after the next
/// movement step and in the third cell after the step that follows, while
/// the third cell spends the first of these steps on the heading that the
/// second cell had.
pub proof fn lemma_turn_travels(cells: Seq<SnakeCell>, requested: Vector2D)
    requires
        cells.len() >= 3,
        !refuses(cells, requested),
    ensures
        steered(cells, requested)[0].direction == requested,
        steered(cells, requested)[1].direction == cells[1].direction,
        advanced(steered(cells, requested))[0].direction == requested,
        advanced(steered(cells, requested))[1].direction == requested,
        advanced(steered(cells, requested))[2].direction == cells[1].direction,
        advanced(advanced(steered(cells, requested)))[2].direction == requested,
{
}

/// A turn that would reverse a body of two cells or more changes nothing.
pub proof fn lemma_reversal_refused(cells: Seq<SnakeCell>, requested: Vector2D)
    requires
        cells.len() >= 2,
        cells[0].direction.opposes(requested),
    ensures
        refuses(cells, requested),
        steered(cells, requested) == cells,
{
}

/// A body of a single cell takes every turn, a reversal too.
pub proof fn lemma_single_cell_turns(cells: Seq<SnakeCell>, requested: Vector2D)
    requires
        cells.len() == 1,
    ensures
        !refuses(cells, requested),
        steered(cells, requested).len() == 1,
        steered(cells, requested)[0].direction == requested,
        steered(cells, requested)[0].position == cells[0].position,
        steered(cells, requested)[0].just_swallowed_egg == cells[0].just_swallowed_egg,
{
}

/// Growing by `credit` adds exactly `credit` cells and leaves the cells that
/// were there as they were.
pub proof fn lemma_grown_length(cells: Seq<SnakeCell>, credit: nat)
    ensures
        grown(cells, credit).len() == cells.len() + credit,
        forall|i: int| 0 <= i < cells.len() ==> (#[trigger] grown(cells, credit)[i]) == cells[i],
        forall|i: int|
            0 <= i < credit ==> (#[trigger] grown(cells, credit)[cells.len() + i])
                == cells.last().follower(i + 1),
{
}

/// The marker never multiplies: after a step of the marker no two cells in
/// a row carry it, and a cell carries it only if the cell ahead did.
pub proof fn lemma_bubbled_markers(cells: Seq<SnakeCell>, index: int)
    requires
        0 <= index < cells.len(),
    ensures
        bubbled(cells).len() == cells.len(),
        bubbled(cells)[index].just_swallowed_egg ==> index > 0 && cells[index - 1].just_swallowed_egg,
        index > 0 && bubbled(cells)[index].just_swallowed_egg ==> !bubbled(cells)[index
            - 1].just_swallowed_egg,
        bubbled(cells)[index].position == cells[index].position,
        bubbled(cells)[index].direction == cells[index].direction,
{
}

/// The snake's body. Its view is the sequence of its cells, head first.
#[derive(Debug)]
pub struct Snake {
    cells: Vec<SnakeCell>,
}

impl View for Snake {
    type V = Seq<SnakeCell>;

    closed spec fn view(&self) -> Seq<SnakeCell> {
        self.cells@
    }
}

impl Snake {
    /// The body has a head.
    pub open spec fn wf(&self) -> bool {
        self@.len() >= 1
    }

    /// A snake of one cell.
    pub fn new(head: SnakeCell) -> (snake: Snake)
        ensures
            snake@ == seq![head],
            snake.wf(),
    {
        let mut cells: Vec<SnakeCell> = Vec::new();
        cells.push(head);
        Snake { cells }
    }

    /// A snake made of `cells`, head first; `None` where there is no cell.
    pub fn from_cells(cells: Vec<SnakeCell>) -> (made: Option<Snake>)
        ensures
            made is None <==> cells@.len() == 0,
            made matches Some(snake) ==> snake@ == cells@ && snake.wf(),
    {
        if cells.len() == 0 {
            None
        } else {
            Some(Snake { cells })
        }
    }

    /// The snake that a game starts with.
    pub fn starting() -> (snake: Snake)
        ensures
            snake@ == starting_cells(),
            snake.wf(),
    {
        let mut cells: Vec<SnakeCell> = Vec::new();
        let mut i: usize = 0;
        while i < START_LENGTH
            invariant
                i <= START_LENGTH,
                cells@ == starting_cells().take(i as int),
            decreases START_LENGTH - i,
        {
            cells.push(SnakeCell::new(Point::new(0, 0), Vector2D::new(1, 0)));
            i += 1;
        }
        Snake { cells }
    }

    /// The number of cells fits the machine's word.
    pub proof fn lemma_length_fits(&self)
        ensures
            self@.len() <= usize::MAX,
    {
        assert(self.cells.len() == self.cells@.len());
    }

    pub fn len(&self) -> (n: usize)
        ensures
            n == self@.len(),
    {
        self.cells.len()
    }

    /// The cells, head first.
    pub fn cells(&self) -> (cells: &Vec<SnakeCell>)
        ensures
            cells@ == self@,
    {
        &self.cells
    }

    /// The cell at `index`, counted from the head.
    pub fn cell(&self, index: usize) -> (cell: Option<SnakeCell>)
        ensures
            cell == if index < self@.len() {
                Some(self@[index as int])
            } else {
                None
            },
    {
        if index < self.cells.len() {
            Some(self.cells[index])
        } else {
            None
        }
    }

    pub fn head(&self) -> (cell: SnakeCell)
        requires
            self.wf(),
        ensures
            cell == self@[0],
    {
        self.cells[0]
    }

    pub fn tail(&self) -> (cell: SnakeCell)
        requires
            self.wf(),
        ensures
            cell == self@.last(),
    {
        self.cells[self.cells.len() - 1]
    }

    /// Applies a turn asked for by the player. A turn that would reverse a
    /// snake of more than one cell is refused and changes nothing.
    pub fn steer(&mut self, requested: Vector2D) -> (accepted: bool)
        requires
            old(self).wf(),
        ensures
            accepted == !refuses(old(self)@, requested),
            final(self)@ == steered(old(self)@, requested),
            final(self).wf(),
    {
        let head = self.cells[0];
        if self.cells.len() > 1 && head.direction.is_opposite(&requested) {
            false
        } else {
            self.cells.set(0, SnakeCell { direction: requested, ..head });
            true
        }
    }

    /// Sets the swallowed-egg marker on the head.
    pub fn mark_head(&mut self)
        requires
            old(self).wf(),
        ensures
            final(self)@ == marked(old(self)@),
            final(self).wf(),
    {
        let head = self.cells[0];
        self.cells.set(0, SnakeCell { just_swallowed_egg: true, ..head });
    }

    /// Appends `credit` cells behind the tail.
    pub fn grow(&mut self, credit: u8)
        requires
            old(self).wf(),
        ensures
            final(self)@ == grown(old(self)@, credit as nat),
            final(self).wf(),
    {
        let tail = self.tail();
        let mut added: u8 = 0;
        while added < credit
            invariant
                added <= credit,
                tail == old(self)@.last(),
                self.cells@ == grown(old(self)@, added as nat),
            decreases credit - added,
        {
            added += 1;
            let position = tail.position.trailing(tail.direction, added);
            self.cells.push(SnakeCell::new(position, Vector2D::new(tail.direction.x, tail.direction.y)));
        }
    }

    /// Hands every heading down by one cell, from the head towards the tail.
    /// The head keeps its heading.
    pub fn propagate_headings(&mut self)
        ensures
            final(self)@ == propagated(old(self)@),
            final(self)@.len() == old(self)@.len(),
    {
        let mut index: usize = self.cells.len();
        while index > 1
            invariant
                self.cells@.len() == old(self)@.len(),
                index <= self.cells@.len(),
                forall|j: int| 0 <= j < index ==> self.cells@[j] == old(self)@[j],
                forall|j: int|
                    index <= j < self.cells@.len() ==> self.cells@[j] == propagated(old(self)@)[j],
            decreases index,
        {
            index -= 1;
            let ahead = self.cells[index - 1];
            let cell = self.cells[index];
            self.cells.set(index, SnakeCell { direction: ahead.direction.copy(), ..cell });
        }
    }

    /// Moves every cell by one cell along its own heading, wrapping around
    /// the playing field.
    pub fn move_cells(&mut self)
        ensures
            final(self)@ == shifted(old(self)@),
            final(self)@.len() == old(self)@.len(),
            forall|i: int|
                0 <= i < final(self)@.len() ==> (#[trigger] final(self)@[i]).position.in_grid(),
    {
        let mut index: usize = 0;
        while index < self.cells.len()
            invariant
                self.cells@.len() == old(self)@.len(),
                index <= self.cells@.len(),
                forall|j: int| 0 <= j < index ==> self.cells@[j] == shifted(old(self)@)[j],
                forall|j: int| index <= j < self.cells@.len() ==> self.cells@[j] == old(self)@[j],
            decreases self.cells@.len() - index,
        {
            let cell = self.cells[index];
            self.cells.set(index, SnakeCell { position: cell.position.step(cell.direction), ..cell });
            index += 1;
        }
    }

    /// One movement step of the whole body.
    pub fn advance(&mut self)
        ensures
            final(self)@ == advanced(old(self)@),
            final(self)@.len() == old(self)@.len(),
            forall|i: int|
                0 <= i < final(self)@.len() ==> (#[trigger] final(self)@[i]).position.in_grid(),
    {
        self.propagate_headings();
        self.move_cells();
    }

    /// One step of the swallowed-egg marker along the body.
    pub fn advance_marker(&mut self)
        ensures
            final(self)@ == bubbled(old(self)@),
            final(self)@.len() == old(self)@.len(),
    {
        let mut holding_egg = false;
        let mut index: usize = 0;
        while index < self.cells.len()
            invariant
                self.cells@.len() == old(self)@.len(),
                index <= self.cells@.len(),
                holding_egg == (index > 0 && old(self)@[index - 1].just_swallowed_egg),
                forall|j: int| 0 <= j < index ==> self.cells@[j] == bubbled(old(self)@)[j],
                forall|j: int| index <= j < self.cells@.len() ==> self.cells@[j] == old(self)@[j],
            decreases self.cells@.len() - index,
        {
            let cell = self.cells[index];
            if cell.just_swallowed_egg {
                self.cells.set(index, SnakeCell { just_swallowed_egg: false, ..cell });
                holding_egg = true;
            } else if holding_egg {
                self.cells.set(index, SnakeCell { just_swallowed_egg: true, ..cell });
                holding_egg = false;
            }
            index += 1;
        }
    }
}

} // verus!
