//! Grid coordinates and headings: the value types the simulation moves on.

use vstd::prelude::*;

verus! {

/// An integer coordinate pair on the grid. Carries no inherent bounds;
/// validity is contextual and checked against a grid extent.
#[derive(Clone, Copy, PartialEq, Eq, Structural, Debug)]
pub struct GridPosition {
    pub x: i32,
    pub y: i32,
}

impl GridPosition {
    /// Whether this position lies inside a `width` by `height` grid.
    pub open spec fn in_bounds_spec(self, width: int, height: int) -> bool {
        0 <= self.x < width && 0 <= self.y < height
    }

    /// Bounds test against a grid extent: inside means
    /// `0 <= x < width` and `0 <= y < height`.
    pub fn in_bounds(self, width: i32, height: i32) -> (r: bool)
        ensures
            r == self.in_bounds_spec(width as int, height as int),
    {
        0 <= self.x && self.x < width && 0 <= self.y && self.y < height
    }
}

/// One of the four axis-aligned headings the snake can travel in.
#[derive(Clone, Copy, PartialEq, Eq, Structural, Debug)]
pub enum Direction {
    Up,
    Down,
    Left,
    Right,
}

impl Direction {
    /// The heading that points exactly the other way.
    pub open spec fn opposite_spec(self) -> Direction {
        match self {
            Direction::Up => Direction::Down,
            Direction::Down => Direction::Up,
            Direction::Left => Direction::Right,
            Direction::Right => Direction::Left,
        }
    }

    /// Returns the heading that points exactly the other way.
    pub fn opposite(self) -> (r: Direction)
        ensures
            r == self.opposite_spec(),
    {
        match self {
            Direction::Up => Direction::Down,
            Direction::Down => Direction::Up,
            Direction::Left => Direction::Right,
            Direction::Right => Direction::Left,
        }
    }
}

/// Horizontal displacement of one step in heading `d`.
pub open spec fn dx(d: Direction) -> int {
    match d {
        Direction::Up => 0,
        Direction::Down => 0,
        Direction::Left => -1,
        Direction::Right => 1,
    }
}

/// Vertical displacement of one step in heading `d`. The y axis grows
/// downward, so `Up` decreases y.
pub open spec fn dy(d: Direction) -> int {
    match d {
        Direction::Up => -1,
        Direction::Down => 1,
        Direction::Left => 0,
        Direction::Right => 0,
    }
}

/// Whether one step from `p` in heading `d` stays within the machine's
/// coordinate range.
pub open spec fn can_step(p: GridPosition, d: Direction) -> bool {
    i32::MIN <= p.x + dx(d) <= i32::MAX && i32::MIN <= p.y + dy(d) <= i32::MAX
}

/// The cell one step from `p` in heading `d`.
pub open spec fn step_spec(p: GridPosition, d: Direction) -> GridPosition {
    GridPosition { x: (p.x + dx(d)) as i32, y: (p.y + dy(d)) as i32 }
}

/// Moves one cell in heading `d`: `Up` is y-1, `Down` is y+1,
/// `Left` is x-1, `Right` is x+1.
pub fn step(p: GridPosition, d: Direction) -> (r: GridPosition)
    requires
        can_step(p, d),
    ensures
        r == step_spec(p, d),
        r.x == p.x + dx(d),
        r.y == p.y + dy(d),
{
    match d {
        Direction::Up => GridPosition { x: p.x, y: p.y - 1 },
        Direction::Down => GridPosition { x: p.x, y: p.y + 1 },
        Direction::Left => GridPosition { x: p.x - 1, y: p.y },
        Direction::Right => GridPosition { x: p.x + 1, y: p.y },
    }
}

/// What a directional input becomes, held against the current heading:
/// the exact opposite of the current heading is rejected, anything else
/// is accepted.
pub open spec fn arbitrate_spec(current: Direction, proposed: Direction) -> Direction {
    if proposed == current.opposite_spec() {
        current
    } else {
        proposed
    }
}

/// Direction-change arbitration: a proposed heading equal to the exact
/// opposite of the current one leaves the heading unchanged (the
/// no-reversal rule); any other proposal, equal or orthogonal to the
/// current heading, is accepted.
pub fn arbitrate(current: Direction, proposed: Direction) -> (r: Direction)
    ensures
        r == arbitrate_spec(current, proposed),
        proposed == current.opposite_spec() ==> r == current,
        proposed != current.opposite_spec() ==> r == proposed,
{
    if proposed == current.opposite() {
        current
    } else {
        proposed
    }
}

} // verus!
