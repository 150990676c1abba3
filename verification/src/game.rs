//! Collision evaluation, the collectible item, and the game aggregate that
//! drives one simulation tick.

use vstd::prelude::*;

use crate::grid::{arbitrate_spec, can_step, step_spec, Direction, GridPosition};
use crate::rng::random_below;
use crate::snake::Snake;

verus! {

/// Width of the playing field, in cells.
pub const GRID_WIDTH: i32 = 30;

/// Height of the playing field, in cells.
pub const GRID_HEIGHT: i32 = 30;

/// What one collision evaluation found, exactly one per tick.
#[derive(Clone, Copy, PartialEq, Eq, Structural, Debug)]
pub enum Outcome {
    /// Nothing happened; play continues unchanged.
    NoEvent,
    /// The head landed on the item: the snake grows and the item moves.
    ItemConsumed,
    /// The head left the grid. Fatal.
    WallCollision,
    /// The head landed on another body segment. Fatal.
    SelfCollision,
}

/// Whether the head of `body` sits on any other segment, that is, on a
/// segment at index 1 or beyond.
pub open spec fn hits_self_spec(body: Seq<GridPosition>) -> bool {
    exists|i: int| 1 <= i < body.len() && #[trigger] body[i] == body[0]
}

/// What collision evaluation returns for a body, a grid extent and an
/// item position. The order is fixed: wall first, then self-collision,
/// then item consumption.
pub open spec fn evaluate_spec(
    body: Seq<GridPosition>,
    width: int,
    height: int,
    item_pos: GridPosition,
) -> Outcome {
    if !body[0].in_bounds_spec(width, height) {
        Outcome::WallCollision
    } else if hits_self_spec(body) {
        Outcome::SelfCollision
    } else if body[0] == item_pos {
        Outcome::ItemConsumed
    } else {
        Outcome::NoEvent
    }
}

/// Evaluates the snake's head against the walls, its own body and the
/// item, in that fixed order. A head outside the grid is a wall collision
/// whatever the body and item hold; a head on any other segment is a self
/// collision; a head on the item consumes it; otherwise nothing happened.
pub fn evaluate(snake: &Snake, width: i32, height: i32, item_pos: GridPosition) -> (r: Outcome)
    requires
        snake.wf(),
    ensures
        r == evaluate_spec(snake.body@, width as int, height as int, item_pos),
        !snake.head_spec().in_bounds_spec(width as int, height as int)
            ==> r == Outcome::WallCollision,
        snake.head_spec().in_bounds_spec(width as int, height as int)
            && hits_self_spec(snake.body@) ==> r == Outcome::SelfCollision,
        snake.head_spec().in_bounds_spec(width as int, height as int)
            && !hits_self_spec(snake.body@) && snake.head_spec() == item_pos
            ==> r == Outcome::ItemConsumed,
        snake.head_spec().in_bounds_spec(width as int, height as int)
            && !hits_self_spec(snake.body@) && snake.head_spec() != item_pos
            ==> r == Outcome::NoEvent,
{
    let head = snake.body[0];
    if !head.in_bounds(width, height) {
        return Outcome::WallCollision;
    }
    let n = snake.body.len();
    let mut i: usize = 1;
    while i < n
        invariant
            1 <= i <= n,
            n == snake.body@.len(),
            snake.wf(),
            head == snake.head_spec(),
            head.in_bounds_spec(width as int, height as int),
            forall|j: int| 1 <= j < i ==> snake.body@[j] != head,
        decreases n - i,
    {
        if snake.body[i] == head {
            proof {
                assert(snake.body@[i as int] == snake.body@[0]);
                assert(hits_self_spec(snake.body@));
            }
            return Outcome::SelfCollision;
        }
        i = i + 1;
    }
    if head == item_pos {
        Outcome::ItemConsumed
    } else {
        Outcome::NoEvent
    }
}

/// The body a snake has right after one move: the stepped head in front,
/// the old tail dropped.
pub open spec fn moved_body_spec(s: Snake) -> Seq<GridPosition> {
    seq![step_spec(s.head_spec(), s.direction)] + s.body@.drop_last()
}

/// A plain move pushes `new_head` in front of `pre` and drops `pre`'s
/// tail. Re-entering the cell that was the tail before the move is then
/// not a self collision, because that cell is gone — provided the new
/// head matches no other old segment.
pub proof fn lemma_tail_reentry_not_collision(pre: Seq<GridPosition>, new_head: GridPosition)
    requires
        pre.len() >= 1,
        new_head == pre.last(),
        forall|i: int| 0 <= i < pre.len() - 1 ==> pre[i] != new_head,
    ensures
        !hits_self_spec(seq![new_head] + pre.drop_last()),
{
    let post = seq![new_head] + pre.drop_last();
    assert forall|i: int| 1 <= i < post.len() implies #[trigger] post[i] != post[0] by {
        assert(post[i] == pre.drop_last()[i - 1]);
        assert(pre.drop_last()[i - 1] == pre[i - 1]);
    }
}

/// A growth tick pushes `new_head` in front of `pre` and keeps every old
/// cell. If the new head lands on any old cell — the old tail included,
/// which a plain move would have dropped — that is a self collision.
pub proof fn lemma_growth_reentry_is_collision(pre: Seq<GridPosition>, new_head: GridPosition)
    requires
        exists|i: int| 0 <= i < pre.len() && #[trigger] pre[i] == new_head,
    ensures
        hits_self_spec(seq![new_head] + pre),
{
    let post = seq![new_head] + pre;
    let i = choose|i: int| 0 <= i < pre.len() && #[trigger] pre[i] == new_head;
    assert(post[i + 1] == pre[i]);
}

/// The tail-reentry exception at the snake level: when one move carries
/// the head exactly onto the cell the tail vacates this tick, and onto no
/// other current segment, the moved body holds no self collision.
pub proof fn lemma_move_onto_vacated_tail_not_collision(s: Snake)
    requires
        s.wf(),
        step_spec(s.head_spec(), s.direction) == s.body@.last(),
        forall|i: int| 0 <= i < s.body@.len() - 1
            ==> s.body@[i] != step_spec(s.head_spec(), s.direction),
    ensures
        !hits_self_spec(moved_body_spec(s)),
{
    lemma_tail_reentry_not_collision(s.body@, step_spec(s.head_spec(), s.direction));
}

/// The collectible item: a single cell the snake grows by reaching.
pub struct Item {
    pub position: GridPosition,
}

impl Item {
    /// Creates an item at a position drawn uniformly at random over a
    /// `width` by `height` grid, one draw per axis.
    pub fn new_random(width: i32, height: i32) -> (r: Item)
        requires
            0 < width,
            0 < height,
        ensures
            r.position.in_bounds_spec(width as int, height as int),
    {
        Item {
            position: GridPosition { x: random_below(width), y: random_below(height) },
        }
    }

    /// Moves the item to a position drawn uniformly at random over a
    /// `width` by `height` grid, one draw per axis. No cell is excluded:
    /// the new position may coincide with the snake's body, to be
    /// resolved naturally on a later evaluation.
    pub fn relocate(&mut self, width: i32, height: i32)
        requires
            0 < width,
            0 < height,
        ensures
            final(self).position.in_bounds_spec(width as int, height as int),
    {
        self.position = GridPosition { x: random_below(width), y: random_below(height) };
    }
}

/// An input event, already decoded from whatever the host reads keys as.
#[derive(Clone, Copy, PartialEq, Eq, Structural, Debug)]
pub enum Command {
    /// A directional key: propose a new heading, subject to the
    /// no-reversal rule.
    Turn(Direction),
    /// The manual-grow key: lengthen the snake at once.
    Grow,
    /// The force-kill key: end the game as a collision would.
    Kill,
}

/// The aggregate: one snake and one item on the fixed playing field.
pub struct Game {
    pub snake: Snake,
    pub item: Item,
}

/// What one tick of `g` evaluates to: the snake is moved one cell, then
/// the moved body is held against the walls, itself and the item.
pub open spec fn tick_outcome_spec(g: Game) -> Outcome {
    evaluate_spec(
        moved_body_spec(g.snake),
        GRID_WIDTH as int,
        GRID_HEIGHT as int,
        g.item.position,
    )
}

impl Game {
    /// Creates the game of game start: the initial snake and an item at
    /// a random cell of the playing field.
    pub fn new() -> (r: Game)
        ensures
            r.snake.direction == Direction::Right,
            r.snake.body@ == seq![
                (GridPosition { x: 0, y: 0 }),
                (GridPosition { x: 0, y: 1 }),
                (GridPosition { x: 0, y: 2 }),
            ],
            r.snake.wf(),
            r.item.position.in_bounds_spec(GRID_WIDTH as int, GRID_HEIGHT as int),
    {
        Game { snake: Snake::new(), item: Item::new_random(GRID_WIDTH, GRID_HEIGHT) }
    }

    /// One discrete tick: move the snake, then evaluate the moved head
    /// against the walls, the body and the item, in that fixed order.
    /// On item consumption the snake grows by one cell and the item moves
    /// to a random cell of the field; on a fatal outcome the state is left
    /// as moved, for the host to show and then terminate on; otherwise
    /// nothing else changes.
    pub fn tick(&mut self) -> (r: Outcome)
        requires
            old(self).snake.wf(),
            can_step(old(self).snake.head_spec(), old(self).snake.direction),
        ensures
            r == tick_outcome_spec(*old(self)),
            final(self).snake.direction == old(self).snake.direction,
            final(self).snake.wf(),
            r != Outcome::ItemConsumed ==> {
                &&& final(self).snake.body@ == moved_body_spec(old(self).snake)
                &&& final(self).item == old(self).item
            },
            r == Outcome::ItemConsumed ==> {
                &&& final(self).snake.body@ == seq![
                    step_spec(
                        step_spec(old(self).snake.head_spec(), old(self).snake.direction),
                        old(self).snake.direction,
                    ),
                ] + moved_body_spec(old(self).snake)
                &&& final(self).snake.body@.len() == old(self).snake.body@.len() + 1
                &&& final(self).item.position.in_bounds_spec(
                    GRID_WIDTH as int,
                    GRID_HEIGHT as int,
                )
            },
    {
        self.snake.update();
        let out = evaluate(&self.snake, GRID_WIDTH, GRID_HEIGHT, self.item.position);
        if out == Outcome::ItemConsumed {
            self.snake.grow();
            self.item.relocate(GRID_WIDTH, GRID_HEIGHT);
        }
        out
    }

    /// Applies one decoded input event: a directional command is
    /// arbitrated against the current heading under the no-reversal rule;
    /// the manual-grow command lengthens the snake at once and leaves the
    /// heading alone; the force-kill command changes nothing and reports
    /// the game over, exactly as a fatal collision would. The result says
    /// whether play goes on.
    pub fn handle_command(&mut self, cmd: Command) -> (alive: bool)
        requires
            old(self).snake.wf(),
            cmd == Command::Grow ==> can_step(
                old(self).snake.head_spec(),
                old(self).snake.direction,
            ),
        ensures
            alive == (cmd != Command::Kill),
            final(self).snake.wf(),
            (match cmd {
                Command::Turn(d) => {
                    &&& final(self).snake.direction == arbitrate_spec(old(self).snake.direction, d)
                    &&& final(self).snake.body == old(self).snake.body
                    &&& final(self).item == old(self).item
                },
                Command::Grow => {
                    &&& final(self).snake.body@ == seq![
                        step_spec(old(self).snake.head_spec(), old(self).snake.direction),
                    ] + old(self).snake.body@
                    &&& final(self).snake.direction == old(self).snake.direction
                    &&& final(self).item == old(self).item
                },
                Command::Kill => *final(self) == *old(self),
            }),
    {
        match cmd {
            Command::Turn(d) => {
                self.snake.steer(d);
                true
            },
            Command::Grow => {
                self.snake.grow();
                true
            },
            Command::Kill => false,
        }
    }
}

} // verus!
