//! The playfield: a bordered rectangle of terminal cells.

use vstd::prelude::*;

verus! {

/// Column of the left wall.
pub const LEFT_WALL: i16 = 1;

/// Row of the top wall.
pub const TOP_WALL: i16 = 1;

/// Narrowest arena that holds the paddle and the ball at their start cells.
pub const MIN_WIDTH: u16 = 46;

/// Widest arena that leaves the status column outside the right wall.
pub const MAX_WIDTH: u16 = 84;

/// Lowest arena in which the ball has room between the top wall and the paddle.
pub const MIN_HEIGHT: u16 = 9;

/// Highest arena whose rows all fit a signed coordinate.
pub const MAX_HEIGHT: u16 = 32767;

/// Distance from the bottom wall up to the row the paddle moves in.
pub const PADDLE_ROW_OFFSET: i16 = 4;

/// A cell of the terminal, counted from 1 in both directions.
#[derive(Clone, Copy, Debug, PartialEq, Eq, Structural)]
pub struct Position {
    pub x: i16,
    pub y: i16,
}

/// The size of the playfield. The walls stand on columns 1 and `width` and on
/// rows 1 and `height`.
#[derive(Clone, Copy, Debug, PartialEq, Eq, Structural)]
pub struct Arena {
    pub width: u16,
    pub height: u16,
}

impl Arena {
    /// The sizes a session can be played in.
    pub open spec fn valid(self) -> bool {
        &&& MIN_WIDTH <= self.width <= MAX_WIDTH
        &&& MIN_HEIGHT <= self.height <= MAX_HEIGHT
    }

    pub open spec fn spec_left(&self) -> i16 {
        LEFT_WALL
    }

    pub open spec fn spec_right(&self) -> i16 {
        self.width as i16
    }

    pub open spec fn spec_top(&self) -> i16 {
        TOP_WALL
    }

    pub open spec fn spec_bottom(&self) -> i16 {
        self.height as i16
    }

    pub open spec fn spec_paddle_row(&self) -> i16 {
        (self.height - PADDLE_ROW_OFFSET) as i16
    }

    /// The cells strictly between the four walls.
    pub open spec fn interior(self, p: Position) -> bool {
        &&& self.left() < p.x < self.right()
        &&& self.top() < p.y < self.bottom()
    }

    /// The cells the ball lives in: inside the walls and above the paddle row.
    pub open spec fn field(self, p: Position) -> bool {
        &&& self.left() < p.x < self.right()
        &&& self.top() < p.y < self.paddle_row()
    }

    /// An arena of the given size, if a session can be played in it.
    pub fn new(width: u16, height: u16) -> (r: Option<Arena>)
        ensures
            r == (if (Arena { width, height }).valid() {
                Some(Arena { width, height })
            } else {
                None
            }),
    {
        if MIN_WIDTH <= width && width <= MAX_WIDTH && MIN_HEIGHT <= height && height <= MAX_HEIGHT {
            Some(Arena { width, height })
        } else {
            None
        }
    }

    /// Whether a session can be played in this arena.
    pub fn is_valid(&self) -> (r: bool)
        ensures
            r == self.valid(),
    {
        MIN_WIDTH <= self.width && self.width <= MAX_WIDTH && MIN_HEIGHT <= self.height
            && self.height <= MAX_HEIGHT
    }

    /// Column of the left wall.
    #[verifier::when_used_as_spec(spec_left)]
    pub fn left(&self) -> (r: i16)
        ensures
            r == self.spec_left(),
    {
        LEFT_WALL
    }

    /// Column of the right wall.
    #[verifier::when_used_as_spec(spec_right)]
    pub fn right(&self) -> (r: i16)
        requires
            self.valid(),
        ensures
            r == self.spec_right(),
            r == self.width,
    {
        self.width as i16
    }

    /// Row of the top wall.
    #[verifier::when_used_as_spec(spec_top)]
    pub fn top(&self) -> (r: i16)
        ensures
            r == self.spec_top(),
    {
        TOP_WALL
    }

    /// Row of the bottom wall.
    #[verifier::when_used_as_spec(spec_bottom)]
    pub fn bottom(&self) -> (r: i16)
        requires
            self.valid(),
        ensures
            r == self.spec_bottom(),
            r == self.height,
    {
        self.height as i16
    }

    /// Row the paddle moves in; the ball is returned or lost when it would
    /// enter it.
    #[verifier::when_used_as_spec(spec_paddle_row)]
    pub fn paddle_row(&self) -> (r: i16)
        requires
            self.valid(),
        ensures
            r == self.spec_paddle_row(),
            r == self.height - PADDLE_ROW_OFFSET,
    {
        self.height as i16 - PADDLE_ROW_OFFSET
    }
}

} // verus!
