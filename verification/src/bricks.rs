//! The brick field: an ordered row-by-row grid of bricks, each of which
//! breaks once.

use vstd::prelude::*;

use crate::arena::Arena;
use crate::arena::Position;
use crate::render::draw;
use crate::render::paint;
use crate::render::Action;
use crate::render::Color;
use crate::render::Glyph;

verus! {

/// Number of cells to the right of a brick's first cell that still belong
/// to it when the ball is tested against it.
pub const BRICK_WIDTH: i16 = 4;

/// Column of the first brick of every row.
pub const BRICK_FIRST_X: i16 = 3;

/// Row of the first row of bricks.
pub const BRICK_FIRST_Y: i16 = 3;

/// Distance between the first cells of two neighbours in a row.
pub const BRICK_STEP_X: i16 = 6;

/// Distance between two rows of bricks.
pub const BRICK_STEP_Y: i16 = 2;

/// Columns left free between the last brick of a row and the right wall.
pub const BRICK_MARGIN: i16 = 4;

/// A brick, by its first cell.
#[derive(Clone, Copy, Debug, PartialEq, Eq, Structural)]
pub struct Brick {
    pub position: Position,
    pub broken: bool,
}

impl Brick {
    /// The brick lies inside the walls and above the paddle row.
    pub open spec fn wf(self, arena: Arena) -> bool {
        &&& arena.field(self.position)
        &&& self.position.x + BRICK_WIDTH < arena.right()
    }

    /// Whether `p` is a cell of the brick: in its row, from its first
    /// column to `BRICK_WIDTH` columns further right, both included.
    pub open spec fn covers(self, p: Position) -> bool {
        &&& p.y == self.position.y
        &&& self.position.x <= p.x <= self.position.x + BRICK_WIDTH
    }

    /// Whether the brick stops a ball on `p`: it covers the cell and is
    /// not broken yet.
    pub open spec fn spec_blocks(&self, p: Position) -> bool {
        !self.broken && self.covers(p)
    }

    /// The brick once it has been hit.
    pub open spec fn shattered(self) -> Brick {
        Brick { position: self.position, broken: true }
    }

    /// The colour the brick is painted in: a broken brick is erased.
    pub open spec fn spec_color(&self) -> Color {
        if self.broken {
            Color::Black
        } else {
            Color::Default
        }
    }

    /// Whether the brick lies inside the walls and above the paddle row.
    pub fn is_wf(&self, arena: &Arena) -> (r: bool)
        requires
            arena.valid(),
        ensures
            r == self.wf(*arena),
    {
        arena.left() < self.position.x && self.position.x < arena.right() - BRICK_WIDTH
            && arena.top() < self.position.y && self.position.y < arena.paddle_row()
    }

    /// Whether the brick stops a ball on `p`.
    #[verifier::when_used_as_spec(spec_blocks)]
    pub fn blocks(&self, p: Position) -> (r: bool)
        requires
            self.position.x + BRICK_WIDTH <= i16::MAX,
        ensures
            r == self.spec_blocks(p),
    {
        !self.broken && p.y == self.position.y && self.position.x <= p.x && p.x
            <= self.position.x + BRICK_WIDTH
    }

    /// The colour the brick is painted in.
    #[verifier::when_used_as_spec(spec_color)]
    pub fn color(&self) -> (c: Color)
        ensures
            c == self.spec_color(),
    {
        if self.broken {
            Color::Black
        } else {
            Color::Default
        }
    }
}

/// Every brick of the field lies inside the walls and above the paddle row.
pub open spec fn field_wf(bricks: Seq<Brick>, arena: Arena) -> bool {
    forall|i: int| 0 <= i < bricks.len() ==> (#[trigger] bricks[i]).wf(arena)
}

/// Brick `i` stops a ball on `p`, and no brick before it in the field does.
pub open spec fn is_first_hit(bricks: Seq<Brick>, p: Position, i: int) -> bool {
    &&& 0 <= i < bricks.len()
    &&& bricks[i].blocks(p)
    &&& forall|j: int| 0 <= j < i ==> !(#[trigger] bricks[j]).blocks(p)
}

/// The first brick of the field, in its order, that stops a ball on `p`.
pub open spec fn first_hit(bricks: Seq<Brick>, p: Position) -> Option<int> {
    if exists|i: int| is_first_hit(bricks, p, i) {
        Some(choose|i: int| is_first_hit(bricks, p, i))
    } else {
        None
    }
}

/// The field after a ball on `p` has been tested against it: the first
/// brick that stops the ball is broken, and no other brick changes.
pub open spec fn after_hit(bricks: Seq<Brick>, p: Position) -> Seq<Brick> {
    match first_hit(bricks, p) {
        Some(i) => bricks.update(i, bricks[i].shattered()),
        None => bricks,
    }
}

/// Number of bricks in a row of the opening grid.
pub open spec fn layout_columns(arena: Arena) -> int {
    (arena.width - 2) / 6
}

/// Number of rows of the opening grid.
pub open spec fn layout_rows(arena: Arena) -> int {
    (arena.height / 2 - 2) / 2
}

/// Brick `i` of the opening grid, which is laid out row by row.
pub open spec fn layout_brick(arena: Arena, i: int) -> Brick {
    Brick {
        position: Position {
            x: (BRICK_FIRST_X + BRICK_STEP_X * (i % layout_columns(arena))) as i16,
            y: (BRICK_FIRST_Y + BRICK_STEP_Y * (i / layout_columns(arena))) as i16,
        },
        broken: false,
    }
}

/// The opening grid: whole bricks on every second row from row 3 down to
/// the middle of the arena, and in each row on every sixth column from
/// column 3 up to `BRICK_MARGIN` columns before the right wall.
pub open spec fn layout_of(arena: Arena) -> Seq<Brick> {
    Seq::new(
        (layout_rows(arena) * layout_columns(arena)) as nat,
        |i: int| layout_brick(arena, i),
    )
}

/// What is written to paint the whole field: every brick in its colour.
pub open spec fn field_actions(bricks: Seq<Brick>) -> Seq<Action> {
    Seq::new(bricks.len(), |i: int| draw(bricks[i].position, Glyph::Brick, bricks[i].color()))
}

/// What is written after a tick's collision test: the brick that broke in
/// this tick is erased.
pub open spec fn redraw_actions(bricks: Seq<Brick>, hit: Option<int>) -> Seq<Action> {
    match hit {
        Some(i) => seq![draw(bricks[i].position, Glyph::Brick, Color::Black)],
        None => Seq::empty(),
    }
}

/// At most one brick is the first to stop a ball on a given cell.
pub proof fn lemma_first_hit_is_unique(bricks: Seq<Brick>, p: Position, i: int)
    requires
        is_first_hit(bricks, p, i),
    ensures
        first_hit(bricks, p) == Some(i),
{
    let j = choose|j: int| is_first_hit(bricks, p, j);
    if j < i {
        assert(!bricks[j].blocks(p));
    } else if i < j {
        assert(!bricks[i].blocks(p));
    }
}

/// Where no brick stops a ball on `p`, there is no first hit.
pub proof fn lemma_no_hit(bricks: Seq<Brick>, p: Position)
    requires
        forall|j: int| 0 <= j < bricks.len() ==> !(#[trigger] bricks[j]).blocks(p),
    ensures
        first_hit(bricks, p).is_none(),
        after_hit(bricks, p) == bricks,
{
}

/// A broken brick is never the one that is hit, whichever cell the ball is
/// on, and it is still broken after the test.
pub proof fn lemma_broken_brick_is_never_hit(bricks: Seq<Brick>, p: Position, i: int)
    requires
        0 <= i < bricks.len(),
        bricks[i].broken,
    ensures
        first_hit(bricks, p) != Some(i),
        after_hit(bricks, p).len() == bricks.len(),
        after_hit(bricks, p)[i] == bricks[i],
{
    if first_hit(bricks, p).is_some() {
        let j = choose|j: int| is_first_hit(bricks, p, j);
        assert(is_first_hit(bricks, p, j));
    }
}

/// The brick that a test breaks is not hit by a second test on the same
/// cell: the second test reaches the next brick that stops the ball there,
/// if there is one.
pub proof fn lemma_hit_brick_is_hit_once(bricks: Seq<Brick>, p: Position, i: int)
    requires
        first_hit(bricks, p) == Some(i),
    ensures
        0 <= i < bricks.len(),
        !bricks[i].broken,
        after_hit(bricks, p)[i].broken,
        first_hit(after_hit(bricks, p), p) != Some(i),
        forall|j: int| 0 <= j < bricks.len() && j != i ==> after_hit(bricks, p)[j] == bricks[j],
{
    let k = choose|k: int| is_first_hit(bricks, p, k);
    assert(is_first_hit(bricks, p, k));
    lemma_broken_brick_is_never_hit(after_hit(bricks, p), p, i);
}

/// Where every brick that covers `p` is broken, a test on `p` changes
/// nothing.
pub proof fn lemma_broken_cells_are_free(bricks: Seq<Brick>, p: Position)
    requires
        forall|j: int| 0 <= j < bricks.len() && (#[trigger] bricks[j]).covers(p) ==> bricks[j].broken,
    ensures
        first_hit(bricks, p).is_none(),
        after_hit(bricks, p) == bricks,
{
    lemma_no_hit(bricks, p);
}

/// Every brick of the opening grid lies inside the walls and above the
/// paddle row, and none is broken.
pub proof fn lemma_layout_wf(arena: Arena)
    requires
        arena.valid(),
    ensures
        field_wf(layout_of(arena), arena),
        forall|i: int| 0 <= i < layout_of(arena).len() ==> !(#[trigger] layout_of(arena)[i]).broken,
{
    let cols = layout_columns(arena);
    let rows = layout_rows(arena);
    assert forall|i: int| 0 <= i < layout_of(arena).len() implies (#[trigger] layout_of(
        arena,
    )[i]).wf(arena) by {
        lemma_layout_index(arena, i);
    }
}

/// Brick `i` of the opening grid stands in row `i / columns` and column
/// `i % columns` of the grid, both within the grid.
pub proof fn lemma_layout_index(arena: Arena, i: int)
    requires
        arena.valid(),
        0 <= i < layout_rows(arena) * layout_columns(arena),
    ensures
        0 <= i % layout_columns(arena) < layout_columns(arena),
        0 <= i / layout_columns(arena) < layout_rows(arena),
{
    let cols = layout_columns(arena);
    let rows = layout_rows(arena);
    assert(cols > 0);
    vstd::arithmetic::div_mod::lemma_fundamental_div_mod(i, cols);
    vstd::arithmetic::div_mod::lemma_mod_pos_bound(i, cols);
    let q = i / cols;
    assert(i == cols * q + i % cols);
    if q >= rows {
        assert(cols * q >= cols * rows) by (nonlinear_arith)
            requires
                q >= rows,
                cols > 0,
        ;
        assert(cols * rows == rows * cols) by (nonlinear_arith);
    }
    if q < 0 {
        assert(cols * q <= -cols) by (nonlinear_arith)
            requires
                q <= -1,
                cols > 0,
        ;
    }
}

/// The opening grid of an arena.
pub fn layout(arena: &Arena) -> (bricks: Vec<Brick>)
    requires
        arena.valid(),
    ensures
        bricks@ == layout_of(*arena),
        field_wf(bricks@, *arena),
{
    let mut bricks: Vec<Brick> = Vec::new();
    let y_limit: i16 = (arena.height / 2) as i16;
    let x_limit: i16 = arena.right() - BRICK_MARGIN;
    let ghost cols: int = layout_columns(*arena);
    let ghost rows: int = layout_rows(*arena);
    let ghost mut row: int = 0;
    let mut y: i16 = BRICK_FIRST_Y;
    while y < y_limit
        invariant
            arena.valid(),
            y_limit == arena.height / 2,
            x_limit == arena.width - BRICK_MARGIN,
            cols == layout_columns(*arena),
            rows == layout_rows(*arena),
            0 <= row <= rows,
            y == BRICK_FIRST_Y + BRICK_STEP_Y * row,
            bricks@ == Seq::new((row * cols) as nat, |i: int| layout_brick(*arena, i)),
        decreases rows - row,
    {
        let ghost mut col: int = 0;
        let mut x: i16 = BRICK_FIRST_X;
        proof {
            assert(row * cols + 0 == row * cols);
        }
        while x < x_limit
            invariant
                arena.valid(),
                y_limit == arena.height / 2,
                x_limit == arena.width - BRICK_MARGIN,
                cols == layout_columns(*arena),
                rows == layout_rows(*arena),
                0 <= row < rows,
                y == BRICK_FIRST_Y + BRICK_STEP_Y * row,
                0 <= col <= cols,
                x == BRICK_FIRST_X + BRICK_STEP_X * col,
                0 <= row * cols + col,
                bricks@ == Seq::new(
                    (row * cols + col) as nat,
                    |i: int| layout_brick(*arena, i),
                ),
            decreases cols - col,
        {
            proof {
                let i = row * cols + col;
                vstd::arithmetic::div_mod::lemma_fundamental_div_mod_converse(i, cols, row, col);
                assert(layout_brick(*arena, i) == (Brick {
                    position: Position { x, y },
                    broken: false,
                }));
            }
            bricks.push(Brick { position: Position { x, y }, broken: false });
            x = x + BRICK_STEP_X;
            proof {
                col = col + 1;
                assert(row * cols + col >= 0) by (nonlinear_arith)
                    requires
                        row >= 0,
                        cols >= 0,
                        col >= 0,
                ;
            }
        }
        proof {
            assert(col == cols);
            assert((row + 1) * cols == row * cols + cols) by (nonlinear_arith);
            row = row + 1;
        }
        y = y + BRICK_STEP_Y;
    }
    proof {
        assert(row == rows);
        lemma_layout_wf(*arena);
    }
    bricks
}

/// Whether every brick of the field lies inside the walls and above the
/// paddle row.
pub fn is_field_wf(bricks: &Vec<Brick>, arena: &Arena) -> (r: bool)
    requires
        arena.valid(),
    ensures
        r == field_wf(bricks@, *arena),
{
    let mut i: usize = 0;
    while i < bricks.len()
        invariant
            arena.valid(),
            0 <= i <= bricks.len(),
            forall|j: int| 0 <= j < i ==> (#[trigger] bricks@[j]).wf(*arena),
        decreases bricks.len() - i,
    {
        if !bricks[i].is_wf(arena) {
            return false;
        }
        i = i + 1;
    }
    true
}

/// Tests a ball on `p` against the field and breaks the first brick that
/// stops it. Returns the index of that brick, or `None` where the cell is
/// free.
pub fn strike(bricks: &mut Vec<Brick>, p: Position, arena: &Arena) -> (hit: Option<usize>)
    requires
        arena.valid(),
        field_wf(old(bricks)@, *arena),
    ensures
        hit.is_some() == first_hit(old(bricks)@, p).is_some(),
        hit.is_some() ==> first_hit(old(bricks)@, p) == Some(hit.unwrap() as int),
        final(bricks)@ == after_hit(old(bricks)@, p),
        field_wf(final(bricks)@, *arena),
{
    let mut i: usize = 0;
    while i < bricks.len()
        invariant
            arena.valid(),
            0 <= i <= bricks.len(),
            bricks@ == old(bricks)@,
            field_wf(bricks@, *arena),
            forall|j: int| 0 <= j < i ==> !(#[trigger] bricks@[j]).blocks(p),
        decreases bricks.len() - i,
    {
        let brick: Brick = bricks[i];
        if brick.blocks(p) {
            proof {
                lemma_first_hit_is_unique(bricks@, p, i as int);
            }
            bricks[i] = Brick { position: brick.position, broken: true };
            return Some(i);
        }
        i = i + 1;
    }
    proof {
        lemma_no_hit(bricks@, p);
    }
    None
}

/// What to write to paint the whole field.
pub fn draw_field(bricks: &Vec<Brick>, arena: &Arena) -> (actions: Vec<Action>)
    requires
        arena.valid(),
        field_wf(bricks@, *arena),
    ensures
        actions@ == field_actions(bricks@),
        forall|i: int| 0 <= i < actions.len() ==> (#[trigger] actions[i]).valid(),
{
    let mut actions: Vec<Action> = Vec::new();
    let mut i: usize = 0;
    while i < bricks.len()
        invariant
            arena.valid(),
            field_wf(bricks@, *arena),
            0 <= i <= bricks.len(),
            actions@ == Seq::new(
                i as nat,
                |k: int| draw(bricks@[k].position, Glyph::Brick, bricks@[k].color()),
            ),
            forall|k: int| 0 <= k < actions.len() ==> (#[trigger] actions[k]).valid(),
        decreases bricks.len() - i,
    {
        let brick: Brick = bricks[i];
        actions.push(paint(brick.position, Glyph::Brick, brick.color()));
        i = i + 1;
    }
    actions
}

/// What to write after a tick's collision test.
pub fn redraw(bricks: &Vec<Brick>, hit: Option<usize>, arena: &Arena) -> (actions: Vec<Action>)
    requires
        arena.valid(),
        field_wf(bricks@, *arena),
        hit.is_some() ==> hit.unwrap() < bricks.len(),
    ensures
        hit.is_some() ==> actions@ == redraw_actions(bricks@, Some(hit.unwrap() as int)),
        hit.is_none() ==> actions@ == redraw_actions(bricks@, None),
        forall|i: int| 0 <= i < actions.len() ==> (#[trigger] actions[i]).valid(),
{
    let mut actions: Vec<Action> = Vec::new();
    match hit {
        Some(i) => {
            actions.push(paint(bricks[i].position, Glyph::Brick, Color::Black));
        },
        None => {},
    }
    actions
}

} // verus!
