//! The paddle: a fixed span of cells that moves along one row in answer to
//! the player's keys.

use vstd::prelude::*;

use crate::arena::Arena;
use crate::arena::Position;
use crate::render::draw;
use crate::render::paint;
use crate::render::Action;
use crate::render::Color;
use crate::render::Glyph;

verus! {

/// Number of cells the paddle spans.
pub const PADDLE_WIDTH: i16 = 10;

/// Number of cells the paddle moves for one key.
pub const PADDLE_STEP: i16 = 2;

/// Column of the paddle's leftmost cell at the start of a rally.
pub const PADDLE_START_X: i16 = 35;

/// The key that moves the paddle to the left: `h`.
pub const KEY_LEFT: u8 = 104;

/// The key that moves the paddle to the right: `k`.
pub const KEY_RIGHT: u8 = 107;

/// The way the paddle last moved.
#[derive(Clone, Copy, Debug, PartialEq, Eq, Structural)]
pub enum Direction {
    Left,
    Right,
    Center,
}

/// The paddle, by its leftmost cell.
#[derive(Clone, Copy, Debug, PartialEq, Eq, Structural)]
pub struct Paddle {
    pub position: Position,
    pub last_direction: Direction,
}

impl Paddle {
    /// Where the paddle stands at the start of a rally.
    pub open spec fn home(arena: Arena) -> Position {
        Position { x: PADDLE_START_X, y: arena.paddle_row() }
    }

    /// The paddle is in its row and its span touches neither wall.
    pub open spec fn wf(self, arena: Arena) -> bool {
        &&& self.position.y == arena.paddle_row()
        &&& arena.left() + 1 <= self.position.x <= arena.right() - 1 - PADDLE_WIDTH
    }

    /// Whether column `x` lies in the paddle's span.
    pub open spec fn spec_covers(&self, x: i16) -> bool {
        self.position.x <= x < self.position.x + PADDLE_WIDTH
    }

    /// Whether a step to the left keeps the paddle right of the left wall.
    pub open spec fn can_step_left(self, arena: Arena) -> bool {
        self.position.x - PADDLE_STEP > arena.left()
    }

    /// Whether a step to the right keeps the paddle's span left of the right
    /// wall.
    pub open spec fn can_step_right(self, arena: Arena) -> bool {
        self.position.x + PADDLE_STEP + PADDLE_WIDTH < arena.right()
    }

    /// The paddle one step to the left.
    pub open spec fn stepped_left(self) -> Paddle {
        Paddle {
            position: Position { x: (self.position.x - PADDLE_STEP) as i16, y: self.position.y },
            last_direction: Direction::Left,
        }
    }

    /// The paddle one step to the right.
    pub open spec fn stepped_right(self) -> Paddle {
        Paddle {
            position: Position { x: (self.position.x + PADDLE_STEP) as i16, y: self.position.y },
            last_direction: Direction::Right,
        }
    }

    /// The paddle after one tick's input: it steps for the two movement keys
    /// where the wall leaves room, and stays as it is for no key or any other
    /// byte.
    pub open spec fn after_key(self, arena: Arena, key: Option<u8>) -> Paddle {
        if key == Some(KEY_LEFT) && self.can_step_left(arena) {
            self.stepped_left()
        } else if key == Some(KEY_RIGHT) && self.can_step_right(arena) {
            self.stepped_right()
        } else {
            self
        }
    }

    /// The cell `offset` columns right of the paddle's leftmost cell.
    pub open spec fn cell(self, offset: int) -> Position {
        Position { x: (self.position.x + offset) as i16, y: self.position.y }
    }

    /// What is repainted when the paddle answers a key: the cells it leaves
    /// are erased, then it is drawn where it stands now. Nothing is
    /// repainted when it does not move.
    pub open spec fn key_actions(self, arena: Arena, key: Option<u8>) -> Seq<Action> {
        if key == Some(KEY_LEFT) && self.can_step_left(arena) {
            seq![
                draw(self.cell(PADDLE_WIDTH - 2), Glyph::Ball, Color::Black),
                draw(self.cell(PADDLE_WIDTH - 1), Glyph::Ball, Color::Black),
                draw(self.stepped_left().position, Glyph::Paddle, Color::Blue),
            ]
        } else if key == Some(KEY_RIGHT) && self.can_step_right(arena) {
            seq![
                draw(self.cell(0), Glyph::Ball, Color::Black),
                draw(self.cell(1), Glyph::Ball, Color::Black),
                draw(self.stepped_right().position, Glyph::Paddle, Color::Blue),
            ]
        } else {
            Seq::empty()
        }
    }

    /// What is repainted when the paddle is taken back to its start cell.
    pub open spec fn reset_actions(self, arena: Arena) -> Seq<Action> {
        seq![
            draw(self.position, Glyph::Paddle, Color::Black),
            draw(Paddle::home(arena), Glyph::Paddle, Color::Blue),
        ]
    }

    /// The paddle after the keys of consecutive ticks.
    pub open spec fn after_keys(self, arena: Arena, keys: Seq<Option<u8>>) -> Paddle
        decreases keys.len(),
    {
        if keys.len() == 0 {
            self
        } else {
            self.after_keys(arena, keys.drop_last()).after_key(arena, keys.last())
        }
    }

    /// A paddle at its start cell that has not moved yet.
    pub fn new(arena: &Arena) -> (paddle: Paddle)
        requires
            arena.valid(),
        ensures
            paddle == (Paddle { position: Paddle::home(*arena), last_direction: Direction::Center }),
            paddle.wf(*arena),
    {
        Paddle {
            position: Position { x: PADDLE_START_X, y: arena.paddle_row() },
            last_direction: Direction::Center,
        }
    }

    /// Whether the paddle is in its row with its span between the walls.
    pub fn is_wf(&self, arena: &Arena) -> (r: bool)
        requires
            arena.valid(),
        ensures
            r == self.wf(*arena),
    {
        self.position.y == arena.paddle_row() && arena.left() + 1 <= self.position.x
            && self.position.x <= arena.right() - 1 - PADDLE_WIDTH
    }

    /// Whether column `x` lies in the paddle's span.
    #[verifier::when_used_as_spec(spec_covers)]
    pub fn covers(&self, x: i16) -> (r: bool)
        requires
            self.position.x + PADDLE_WIDTH <= i16::MAX,
        ensures
            r == self.spec_covers(x),
    {
        self.position.x <= x && x < self.position.x + PADDLE_WIDTH
    }

    /// Moves the paddle for one tick's input and says what to repaint.
    pub fn handle_key(&mut self, arena: &Arena, key: Option<u8>) -> (actions: Vec<Action>)
        requires
            arena.valid(),
            old(self).wf(*arena),
        ensures
            *final(self) == old(self).after_key(*arena, key),
            actions@ == old(self).key_actions(*arena, key),
            final(self).wf(*arena),
            forall|i: int| 0 <= i < actions.len() ==> (#[trigger] actions[i]).valid(),
    {
        let mut actions: Vec<Action> = Vec::new();
        let x: i16 = self.position.x;
        let y: i16 = self.position.y;
        match key {
            Some(KEY_LEFT) => {
                let candidate: i16 = x - PADDLE_STEP;
                if candidate > arena.left() {
                    actions.push(
                        paint(Position { x: x + PADDLE_WIDTH - 2, y }, Glyph::Ball, Color::Black),
                    );
                    actions.push(
                        paint(Position { x: x + PADDLE_WIDTH - 1, y }, Glyph::Ball, Color::Black),
                    );
                    self.position = Position { x: candidate, y };
                    self.last_direction = Direction::Left;
                    actions.push(paint(self.position, Glyph::Paddle, Color::Blue));
                }
            },
            Some(KEY_RIGHT) => {
                let candidate: i16 = x + PADDLE_STEP;
                if candidate + PADDLE_WIDTH < arena.right() {
                    actions.push(paint(Position { x, y }, Glyph::Ball, Color::Black));
                    actions.push(paint(Position { x: x + 1, y }, Glyph::Ball, Color::Black));
                    self.position = Position { x: candidate, y };
                    self.last_direction = Direction::Right;
                    actions.push(paint(self.position, Glyph::Paddle, Color::Blue));
                }
            },
            _ => {},
        }
        actions
    }

    /// Takes the paddle back to its start cell and says what to repaint.
    pub fn reset(&mut self, arena: &Arena) -> (actions: Vec<Action>)
        requires
            arena.valid(),
            old(self).wf(*arena),
        ensures
            final(self).position == Paddle::home(*arena),
            final(self).last_direction == old(self).last_direction,
            actions@ == old(self).reset_actions(*arena),
            final(self).wf(*arena),
            forall|i: int| 0 <= i < actions.len() ==> (#[trigger] actions[i]).valid(),
    {
        let mut actions: Vec<Action> = Vec::new();
        actions.push(paint(self.position, Glyph::Paddle, Color::Black));
        self.position = Position { x: PADDLE_START_X, y: arena.paddle_row() };
        actions.push(paint(self.position, Glyph::Paddle, Color::Blue));
        actions
    }
}

/// However many keys arrive, and whichever, the paddle stays in its row with
/// its leftmost cell between one cell right of the left wall and its width
/// plus one cell left of the right wall.
pub proof fn lemma_paddle_stays_between_walls(paddle: Paddle, arena: Arena, keys: Seq<Option<u8>>)
    requires
        arena.valid(),
        paddle.wf(arena),
    ensures
        paddle.after_keys(arena, keys).wf(arena),
        arena.left() + 1 <= paddle.after_keys(arena, keys).position.x <= arena.right() - 1
            - PADDLE_WIDTH,
    decreases keys.len(),
{
    if keys.len() > 0 {
        lemma_paddle_stays_between_walls(paddle, arena, keys.drop_last());
    }
}

} // verus!
