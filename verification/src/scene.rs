//! The scenery that is painted once, before the first tick: the canvas and
//! the four walls.

use vstd::prelude::*;

use crate::arena::Arena;
use crate::arena::Position;
use crate::render::all_valid;
use crate::render::draw;
use crate::render::paint;
use crate::render::Action;
use crate::render::Color;
use crate::render::Glyph;

verus! {

/// Cell `i` of the canvas, which is painted column by column from the top
/// left corner; the last column and the last row are left to the walls.
pub open spec fn canvas_cell(arena: Arena, i: int) -> Position {
    Position { x: (1 + i / (arena.height - 1)) as i16, y: (1 + i % (arena.height - 1)) as i16 }
}

/// What paints the canvas: black becomes the background, and every cell is
/// written once in black.
pub open spec fn canvas_actions(arena: Arena) -> Seq<Action> {
    seq![Action::BlackBackground] + Seq::new(
        ((arena.width - 1) * (arena.height - 1)) as nat,
        |i: int| draw(canvas_cell(arena, i), Glyph::Ball, Color::Black),
    )
}

/// What paints the horizontal wall of row `y` between the two corners, from
/// left to right.
pub open spec fn horizontal_wall_actions(arena: Arena, y: i16) -> Seq<Action> {
    Seq::new(
        (arena.width - 2) as nat,
        |i: int| draw(Position { x: (2 + i) as i16, y }, Glyph::HorizontalWall, Color::Red),
    )
}

/// Cell `i` of the two vertical walls, which are painted row by row between
/// the corners, the left wall before the right one.
pub open spec fn side_wall_cell(arena: Arena, i: int) -> Position {
    Position {
        x: if i % 2 == 0 {
            arena.left()
        } else {
            arena.right()
        },
        y: (2 + i / 2) as i16,
    }
}

/// What paints the two vertical walls between the corners.
pub open spec fn side_wall_actions(arena: Arena) -> Seq<Action> {
    Seq::new(
        (2 * (arena.height - 2)) as nat,
        |i: int| draw(side_wall_cell(arena, i), Glyph::VerticalWall, Color::Red),
    )
}

/// What paints the four walls, in red: the top row with its corners, the
/// two sides, the bottom row with its corners.
pub open spec fn wall_actions(arena: Arena) -> Seq<Action> {
    seq![draw(Position { x: arena.left(), y: arena.top() }, Glyph::TopLeftCorner, Color::Red)]
        + horizontal_wall_actions(arena, arena.top()) + seq![
        draw(Position { x: arena.right(), y: arena.top() }, Glyph::TopRightCorner, Color::Red),
    ] + side_wall_actions(arena) + seq![
        draw(Position { x: arena.left(), y: arena.bottom() }, Glyph::BottomLeftCorner, Color::Red),
    ] + horizontal_wall_actions(arena, arena.bottom()) + seq![
        draw(
            Position { x: arena.right(), y: arena.bottom() },
            Glyph::BottomRightCorner,
            Color::Red,
        ),
    ]
}

/// What to write to paint the canvas.
pub fn draw_canvas(arena: &Arena) -> (actions: Vec<Action>)
    requires
        arena.valid(),
    ensures
        actions@ == canvas_actions(*arena),
        all_valid(actions@),
{
    let mut actions: Vec<Action> = Vec::new();
    actions.push(Action::BlackBackground);
    let right: i16 = arena.right();
    let bottom: i16 = arena.bottom();
    let ghost rows: int = arena.height - 1;
    let mut x: i16 = 1;
    while x < right
        invariant
            arena.valid(),
            right == arena.width,
            bottom == arena.height,
            rows == arena.height - 1,
            1 <= x <= right,
            actions@ == seq![Action::BlackBackground] + Seq::new(
                ((x - 1) * rows) as nat,
                |i: int| draw(canvas_cell(*arena, i), Glyph::Ball, Color::Black),
            ),
            all_valid(actions@),
        decreases right - x,
    {
        let mut y: i16 = 1;
        proof {
            assert((x - 1) * rows >= 0) by (nonlinear_arith)
                requires
                    x >= 1,
                    rows >= 0,
            ;
        }
        while y < bottom
            invariant
                arena.valid(),
                right == arena.width,
                bottom == arena.height,
                rows == arena.height - 1,
                1 <= x < right,
                1 <= y <= bottom,
                (x - 1) * rows >= 0,
                actions@ == seq![Action::BlackBackground] + Seq::new(
                    ((x - 1) * rows + (y - 1)) as nat,
                    |i: int| draw(canvas_cell(*arena, i), Glyph::Ball, Color::Black),
                ),
                all_valid(actions@),
            decreases bottom - y,
        {
            proof {
                let i = (x - 1) * rows + (y - 1);
                vstd::arithmetic::div_mod::lemma_fundamental_div_mod_converse(
                    i,
                    rows,
                    x - 1,
                    y - 1,
                );
                assert(canvas_cell(*arena, i) == Position { x, y });
            }
            actions.push(paint(Position { x, y }, Glyph::Ball, Color::Black));
            y = y + 1;
        }
        proof {
            assert(x * rows == (x - 1) * rows + rows) by (nonlinear_arith);
        }
        x = x + 1;
    }
    proof {
        assert((x - 1) * rows == (arena.width - 1) * (arena.height - 1));
    }
    actions
}

/// What to write to paint the horizontal wall of row `y` between the two
/// corners.
pub fn draw_horizontal_line(arena: &Arena, y: i16) -> (actions: Vec<Action>)
    requires
        arena.valid(),
        y >= 1,
    ensures
        actions@ == horizontal_wall_actions(*arena, y),
        all_valid(actions@),
{
    let mut actions: Vec<Action> = Vec::new();
    let right: i16 = arena.right();
    let mut x: i16 = 2;
    while x < right
        invariant
            arena.valid(),
            right == arena.width,
            y >= 1,
            2 <= x <= right,
            actions@ == Seq::new(
                (x - 2) as nat,
                |i: int| draw(Position { x: (2 + i) as i16, y }, Glyph::HorizontalWall, Color::Red),
            ),
            all_valid(actions@),
        decreases right - x,
    {
        actions.push(paint(Position { x, y }, Glyph::HorizontalWall, Color::Red));
        x = x + 1;
    }
    actions
}

/// What to write to paint the two vertical walls between the corners.
pub fn draw_side_walls(arena: &Arena) -> (actions: Vec<Action>)
    requires
        arena.valid(),
    ensures
        actions@ == side_wall_actions(*arena),
        all_valid(actions@),
{
    let mut actions: Vec<Action> = Vec::new();
    let left: i16 = arena.left();
    let right: i16 = arena.right();
    let bottom: i16 = arena.bottom();
    let mut y: i16 = 2;
    while y < bottom
        invariant
            arena.valid(),
            left == arena.left(),
            right == arena.width,
            bottom == arena.height,
            2 <= y <= bottom,
            actions@ == Seq::new(
                (2 * (y - 2)) as nat,
                |i: int| draw(side_wall_cell(*arena, i), Glyph::VerticalWall, Color::Red),
            ),
            all_valid(actions@),
        decreases bottom - y,
    {
        proof {
            assert(side_wall_cell(*arena, 2 * (y - 2)) == Position { x: left, y });
            assert(side_wall_cell(*arena, 2 * (y - 2) + 1) == Position { x: right, y });
        }
        actions.push(paint(Position { x: left, y }, Glyph::VerticalWall, Color::Red));
        actions.push(paint(Position { x: right, y }, Glyph::VerticalWall, Color::Red));
        y = y + 1;
    }
    actions
}

/// What to write to paint the four walls.
pub fn draw_walls(arena: &Arena) -> (actions: Vec<Action>)
    requires
        arena.valid(),
    ensures
        actions@ == wall_actions(*arena),
        all_valid(actions@),
{
    let left: i16 = arena.left();
    let right: i16 = arena.right();
    let top: i16 = arena.top();
    let bottom: i16 = arena.bottom();
    let mut actions: Vec<Action> = Vec::new();
    actions.push(paint(Position { x: left, y: top }, Glyph::TopLeftCorner, Color::Red));
    let mut top_row: Vec<Action> = draw_horizontal_line(arena, top);
    actions.append(&mut top_row);
    actions.push(paint(Position { x: right, y: top }, Glyph::TopRightCorner, Color::Red));
    let mut sides: Vec<Action> = draw_side_walls(arena);
    actions.append(&mut sides);
    actions.push(paint(Position { x: left, y: bottom }, Glyph::BottomLeftCorner, Color::Red));
    let mut bottom_row: Vec<Action> = draw_horizontal_line(arena, bottom);
    actions.append(&mut bottom_row);
    actions.push(paint(Position { x: right, y: bottom }, Glyph::BottomRightCorner, Color::Red));
    actions
}

} // verus!
