//! The snake: an ordered body of grid cells, head first, and a current
//! heading, with the move and growth operations.

use vstd::prelude::*;

use crate::grid::{
    arbitrate, arbitrate_spec, can_step, step, step_spec, Direction, GridPosition,
};

verus! {

/// The snake's state: its body cells, head first and tail last, and the
/// heading applied to the head on each move. The body always holds at
/// least one cell.
pub struct Snake {
    pub body: Vec<GridPosition>,
    pub direction: Direction,
}

impl Snake {
    /// The lifecycle invariant: the body is never empty.
    pub open spec fn wf(self) -> bool {
        self.body@.len() >= 1
    }

    /// The head cell: the first element of the body.
    pub open spec fn head_spec(self) -> GridPosition {
        self.body@[0]
    }

    /// Creates the snake of game start: body `[(0,0), (0,1), (0,2)]`,
    /// head first, heading `Right`.
    pub fn new() -> (r: Snake)
        ensures
            r.direction == Direction::Right,
            r.body@ == seq![
                (GridPosition { x: 0, y: 0 }),
                (GridPosition { x: 0, y: 1 }),
                (GridPosition { x: 0, y: 2 }),
            ],
            r.wf(),
    {
        Snake {
            body: vec![
                GridPosition { x: 0, y: 0 },
                GridPosition { x: 0, y: 1 },
                GridPosition { x: 0, y: 2 },
            ],
            direction: Direction::Right,
        }
    }

    /// Returns the head cell.
    pub fn head(&self) -> (r: GridPosition)
        requires
            self.wf(),
        ensures
            r == self.head_spec(),
    {
        self.body[0]
    }

    /// Number of body cells.
    pub fn len(&self) -> (r: usize)
        ensures
            r == self.body@.len(),
    {
        self.body.len()
    }

    /// Advances the snake one cell in its current heading: the stepped
    /// head is pushed to the front and the tail cell is dropped, so the
    /// body length is unchanged.
    pub fn update(&mut self)
        requires
            old(self).wf(),
            can_step(old(self).head_spec(), old(self).direction),
        ensures
            final(self).direction == old(self).direction,
            final(self).body@ == seq![
                step_spec(old(self).head_spec(), old(self).direction),
            ] + old(self).body@.drop_last(),
            final(self).body@.len() == old(self).body@.len(),
            final(self).wf(),
    {
        let next_head = step(self.body[0], self.direction);
        self.body.insert(0, next_head);
        self.body.pop();
        proof {
            assert(self.body@ =~= seq![
                step_spec(old(self).head_spec(), old(self).direction),
            ] + old(self).body@.drop_last());
        }
    }

    /// Lengthens the snake by one cell: the stepped head is pushed to the
    /// front and the tail is kept, so every cell of the old body is still
    /// present, one position later.
    pub fn grow(&mut self)
        requires
            old(self).wf(),
            can_step(old(self).head_spec(), old(self).direction),
        ensures
            final(self).direction == old(self).direction,
            final(self).body@ == seq![
                step_spec(old(self).head_spec(), old(self).direction),
            ] + old(self).body@,
            final(self).body@.len() == old(self).body@.len() + 1,
            final(self).body@.skip(1) == old(self).body@,
            final(self).wf(),
    {
        let new_head = step(self.body[0], self.direction);
        self.body.insert(0, new_head);
        proof {
            assert(self.body@ =~= seq![
                step_spec(old(self).head_spec(), old(self).direction),
            ] + old(self).body@);
            assert(self.body@.skip(1) =~= old(self).body@);
        }
    }

    /// Applies a directional input to the heading under the no-reversal
    /// rule: the exact opposite of the current heading is rejected and the
    /// heading stays; any other proposal is accepted. The body is not
    /// touched.
    pub fn steer(&mut self, proposed: Direction)
        ensures
            final(self).direction == arbitrate_spec(old(self).direction, proposed),
            proposed == old(self).direction.opposite_spec()
                ==> final(self).direction == old(self).direction,
            proposed != old(self).direction.opposite_spec()
                ==> final(self).direction == proposed,
            final(self).body == old(self).body,
    {
        self.direction = arbitrate(self.direction, proposed);
    }
}

} // verus!
