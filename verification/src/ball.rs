//! The ball: a cell, a unit velocity, and the reflection off the side walls
//! and the top wall.

use vstd::prelude::*;

use crate::arena::Arena;
use crate::arena::Position;
use crate::render::draw;
use crate::render::paint;
use crate::render::Action;
use crate::render::Color;
use crate::render::Glyph;

verus! {

/// Column the ball starts a rally in.
pub const BALL_START_X: i16 = 40;

/// Distance from the bottom wall up to the row the ball starts a rally in:
/// the row above the paddle.
pub const BALL_ROW_OFFSET: i16 = 5;

/// Rows below the bottom wall at which the cursor is left after the ball has
/// been put on its start cell.
pub const PARK_ROW_OFFSET: u16 = 5;

/// How far the ball moves in one tick, along each axis: one cell or none.
#[derive(Clone, Copy, Debug, PartialEq, Eq, Structural)]
pub struct Velocity {
    pub dx: i16,
    pub dy: i16,
}

/// The axes along which the velocity was turned round in one tick.
#[derive(Clone, Copy, Debug, PartialEq, Eq, Structural)]
pub struct Reflection {
    pub horizontal: bool,
    pub vertical: bool,
}

/// The ball.
#[derive(Clone, Copy, Debug, PartialEq, Eq, Structural)]
pub struct Ball {
    pub position: Position,
    pub velocity: Velocity,
    /// The cell the ball left in its last move, which is the cell to erase;
    /// `None` until the ball has moved in this rally.
    pub previous_position: Option<Position>,
}

impl Velocity {
    /// Each component is -1, 0 or 1.
    pub open spec fn valid(self) -> bool {
        &&& -1 <= self.dx <= 1
        &&& -1 <= self.dy <= 1
    }

    /// The velocity turned round along the horizontal axis.
    pub open spec fn flipped_x(self) -> Velocity {
        Velocity { dx: (-self.dx) as i16, dy: self.dy }
    }

    /// The velocity turned round along the vertical axis.
    pub open spec fn flipped_y(self) -> Velocity {
        Velocity { dx: self.dx, dy: (-self.dy) as i16 }
    }

    /// The velocity turned round along both axes.
    pub open spec fn reversed(self) -> Velocity {
        Velocity { dx: (-self.dx) as i16, dy: (-self.dy) as i16 }
    }
}

impl Ball {
    /// Where the ball stands at the start of a rally.
    pub open spec fn home(arena: Arena) -> Position {
        Position { x: BALL_START_X, y: (arena.height - BALL_ROW_OFFSET) as i16 }
    }

    /// The ball is inside the walls and above the paddle row, and moves at
    /// most one cell along each axis.
    pub open spec fn wf(self, arena: Arena) -> bool {
        &&& self.velocity.valid()
        &&& arena.field(self.position)
    }

    /// The column the ball would enter if nothing turned it round.
    pub open spec fn predicted_x(self) -> int {
        self.position.x + self.velocity.dx
    }

    /// The row the ball would enter if nothing turned it round.
    pub open spec fn predicted_y(self) -> int {
        self.position.y + self.velocity.dy
    }

    pub open spec fn spec_reached_left_wall(&self, arena: &Arena) -> bool {
        self.predicted_x() <= arena.left() + 1
    }

    pub open spec fn spec_reached_right_wall(&self, arena: &Arena) -> bool {
        self.predicted_x() >= arena.right() - 1
    }

    pub open spec fn spec_reached_upper_wall(&self, arena: &Arena) -> bool {
        self.predicted_y() < arena.top() + 2
    }

    pub open spec fn spec_reached_floor(&self, arena: &Arena) -> bool {
        self.predicted_y() >= arena.paddle_row()
    }

    /// The axes along which `advance` turns the velocity round.
    pub open spec fn reflection(self, arena: Arena) -> Reflection {
        Reflection {
            horizontal: self.reached_left_wall(&arena) || self.reached_right_wall(&arena),
            vertical: self.reached_upper_wall(&arena),
        }
    }

    /// The velocity after the walls have turned it round.
    pub open spec fn reflected_velocity(self, arena: Arena) -> Velocity {
        Velocity {
            dx: if self.reflection(arena).horizontal {
                (-self.velocity.dx) as i16
            } else {
                self.velocity.dx
            },
            dy: if self.reflection(arena).vertical {
                (-self.velocity.dy) as i16
            } else {
                self.velocity.dy
            },
        }
    }

    /// The ball one tick later: the velocity is turned round first, along
    /// each axis on which the ball would come within a cell of a side wall
    /// or of the top wall, and the ball then moves by the velocity it has
    /// now.
    pub open spec fn advanced(self, arena: Arena) -> Ball {
        let v = self.reflected_velocity(arena);
        Ball {
            position: Position {
                x: (self.position.x + v.dx) as i16,
                y: (self.position.y + v.dy) as i16,
            },
            velocity: v,
            previous_position: Some(self.position),
        }
    }

    /// The ball with its vertical velocity turned round, as the paddle
    /// returns it.
    pub open spec fn bounced(self) -> Ball {
        Ball {
            position: self.position,
            velocity: self.velocity.flipped_y(),
            previous_position: self.previous_position,
        }
    }

    /// The ball with its velocity turned round along both axes, as a brick
    /// returns it.
    pub open spec fn reversed(self) -> Ball {
        Ball {
            position: self.position,
            velocity: self.velocity.reversed(),
            previous_position: self.previous_position,
        }
    }

    /// The ball put back on its start cell. It keeps its velocity, and has
    /// no cell to erase.
    pub open spec fn rehomed(self, arena: Arena) -> Ball {
        Ball { position: Ball::home(arena), velocity: self.velocity, previous_position: None }
    }

    /// The ball after a miss: a side wall it was about to touch still turns
    /// it round, and it is put back on its start cell.
    pub open spec fn served(self, arena: Arena) -> Ball {
        Ball {
            position: Ball::home(arena),
            velocity: Velocity {
                dx: self.reflected_velocity(arena).dx,
                dy: self.velocity.dy,
            },
            previous_position: None,
        }
    }

    /// The action that erases the ball where it stands.
    pub open spec fn erase_action(self) -> Action {
        draw(self.position, Glyph::Ball, Color::Black)
    }

    /// The action that draws the ball where it stands.
    pub open spec fn draw_action(self) -> Action {
        draw(self.position, Glyph::Ball, Color::Green)
    }

    /// What is written when the ball is put on its start cell: the ball,
    /// and the cursor is left below the arena.
    pub open spec fn home_actions(arena: Arena) -> Seq<Action> {
        seq![
            draw(Ball::home(arena), Glyph::Ball, Color::Green),
            Action::MoveCursor { x: 1, y: (arena.height + PARK_ROW_OFFSET) as u16 },
        ]
    }

    /// A ball on its start cell, moving up and to the right.
    pub fn new(arena: &Arena) -> (ball: Ball)
        requires
            arena.valid(),
        ensures
            ball.position == Ball::home(*arena),
            ball.velocity.dx == 1,
            ball.velocity.dy == -1,
            ball.previous_position.is_none(),
            ball.wf(*arena),
    {
        Ball {
            position: Position { x: BALL_START_X, y: arena.bottom() - BALL_ROW_OFFSET },
            velocity: Velocity { dx: 1, dy: -1 },
            previous_position: None,
        }
    }

    /// Whether the ball is inside the walls and above the paddle row and
    /// moves at most one cell along each axis.
    pub fn is_wf(&self, arena: &Arena) -> (r: bool)
        requires
            arena.valid(),
        ensures
            r == self.wf(*arena),
    {
        -1 <= self.velocity.dx && self.velocity.dx <= 1 && -1 <= self.velocity.dy
            && self.velocity.dy <= 1 && arena.left() < self.position.x && self.position.x
            < arena.right() && arena.top() < self.position.y && self.position.y
            < arena.paddle_row()
    }

    /// Whether the ball would come within a cell of the left wall.
    #[verifier::when_used_as_spec(spec_reached_left_wall)]
    pub fn reached_left_wall(&self, arena: &Arena) -> (r: bool)
        requires
            arena.valid(),
            self.wf(*arena),
        ensures
            r == self.spec_reached_left_wall(arena),
    {
        self.position.x + self.velocity.dx <= arena.left() + 1
    }

    /// Whether the ball would come within a cell of the right wall.
    #[verifier::when_used_as_spec(spec_reached_right_wall)]
    pub fn reached_right_wall(&self, arena: &Arena) -> (r: bool)
        requires
            arena.valid(),
            self.wf(*arena),
        ensures
            r == self.spec_reached_right_wall(arena),
    {
        self.position.x + self.velocity.dx >= arena.right() - 1
    }

    /// Whether the ball would come within a cell of the top wall.
    #[verifier::when_used_as_spec(spec_reached_upper_wall)]
    pub fn reached_upper_wall(&self, arena: &Arena) -> (r: bool)
        requires
            arena.valid(),
            self.wf(*arena),
        ensures
            r == self.spec_reached_upper_wall(arena),
    {
        self.position.y + self.velocity.dy < arena.top() + 2
    }

    /// Whether the ball would enter the paddle row.
    #[verifier::when_used_as_spec(spec_reached_floor)]
    pub fn reached_floor(&self, arena: &Arena) -> (r: bool)
        requires
            arena.valid(),
            self.wf(*arena),
        ensures
            r == self.spec_reached_floor(arena),
    {
        self.position.y + self.velocity.dy >= arena.paddle_row()
    }

    /// The action that erases the ball where it stands.
    pub fn clear_previous_ball_position(&self, arena: &Arena) -> (action: Action)
        requires
            arena.valid(),
            self.wf(*arena),
        ensures
            action == self.erase_action(),
            action.valid(),
    {
        paint(self.position, Glyph::Ball, Color::Black)
    }

    /// The action that draws the ball where it stands.
    pub fn write_new_ball_position(&self, arena: &Arena) -> (action: Action)
        requires
            arena.valid(),
            self.wf(*arena),
        ensures
            action == self.draw_action(),
            action.valid(),
    {
        paint(self.position, Glyph::Ball, Color::Green)
    }

    /// Puts the ball back on its start cell, with the velocity it has, and
    /// says what to write.
    pub fn move_to_initial_position(&mut self, arena: &Arena) -> (actions: Vec<Action>)
        requires
            arena.valid(),
            old(self).velocity.valid(),
        ensures
            *final(self) == old(self).rehomed(*arena),
            final(self).wf(*arena),
            actions@ == Ball::home_actions(*arena),
            forall|i: int| 0 <= i < actions.len() ==> (#[trigger] actions[i]).valid(),
    {
        self.position = Position { x: BALL_START_X, y: arena.bottom() - BALL_ROW_OFFSET };
        self.previous_position = None;
        let mut actions: Vec<Action> = Vec::new();
        actions.push(paint(self.position, Glyph::Ball, Color::Green));
        actions.push(Action::MoveCursor { x: 1, y: arena.height + PARK_ROW_OFFSET });
        actions
    }

    /// Moves the ball by one tick and says along which axes a wall turned
    /// it round. The ball stays between the four walls; it leaves the field
    /// only by entering the paddle row, which it does exactly when it was
    /// about to reach the floor.
    pub fn advance(&mut self, arena: &Arena) -> (reflected: Reflection)
        requires
            arena.valid(),
            old(self).wf(*arena),
        ensures
            *final(self) == old(self).advanced(*arena),
            reflected == old(self).reflection(*arena),
            final(self).velocity.valid(),
            arena.interior(final(self).position),
            !old(self).reached_floor(arena) ==> final(self).wf(*arena),
            old(self).reached_floor(arena) ==> final(self).position.y == arena.paddle_row(),
    {
        let horizontal: bool = self.reached_left_wall(arena) || self.reached_right_wall(arena);
        let vertical: bool = self.reached_upper_wall(arena);
        if horizontal {
            self.velocity.dx = -self.velocity.dx;
        }
        if vertical {
            self.velocity.dy = -self.velocity.dy;
        }
        self.previous_position = Some(self.position);
        self.position = Position {
            x: self.position.x + self.velocity.dx,
            y: self.position.y + self.velocity.dy,
        };
        Reflection { horizontal, vertical }
    }
}

/// Turning a velocity round twice along one axis gives the velocity back.
pub proof fn lemma_reflection_is_involutive(v: Velocity)
    requires
        v.valid(),
    ensures
        v.flipped_x().flipped_x() == v,
        v.flipped_y().flipped_y() == v,
        v.reversed().reversed() == v,
        v.flipped_x().flipped_y() == v.reversed(),
{
}

/// A ball that a side wall turns round in one tick moves away from that
/// wall in the next: it is not turned round horizontally again, and its
/// column changes by the new horizontal velocity.
pub proof fn lemma_side_wall_reflection_moves_away(ball: Ball, arena: Arena)
    requires
        arena.valid(),
        ball.wf(arena),
        ball.velocity.dx != 0,
        ball.reflection(arena).horizontal,
    ensures
        ({
            let next = ball.advanced(arena);
            let after = next.advanced(arena);
            &&& next.velocity.dx == -ball.velocity.dx
            &&& !next.reflection(arena).horizontal
            &&& after.velocity.dx == next.velocity.dx
            &&& after.position.x == next.position.x + next.velocity.dx
            &&& ball.reached_left_wall(&arena) ==> after.position.x > next.position.x
                > ball.position.x
            &&& ball.reached_right_wall(&arena) ==> after.position.x < next.position.x
                < ball.position.x
        }),
{
}

/// A ball that the top wall turns round in one tick moves away from it in
/// the next: it is not turned round vertically again, and it is one row
/// further down.
pub proof fn lemma_top_wall_reflection_moves_away(ball: Ball, arena: Arena)
    requires
        arena.valid(),
        ball.wf(arena),
        ball.velocity.dy != 0,
        ball.reflection(arena).vertical,
    ensures
        ({
            let next = ball.advanced(arena);
            let after = next.advanced(arena);
            &&& next.velocity.dy == 1
            &&& !next.reflection(arena).vertical
            &&& after.velocity.dy == 1
            &&& after.position.y == next.position.y + 1
            &&& next.position.y == ball.position.y + 1
        }),
{
}

} // verus!
