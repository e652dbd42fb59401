//! The game: one state for the whole session and one step per tick.
//!
//! A tick moves the ball, resolves what it met, repaints what changed and
//! applies the key that was pressed, in this order. Every operation says in
//! its contract what the state is afterwards and which actions it hands out,
//! over the model of the state, [`GameView`].

use vstd::prelude::*;

use crate::arena::Arena;
use crate::arena::Position;
use crate::ball::Ball;
use crate::bricks::after_hit;
use crate::bricks::field_actions;
use crate::bricks::field_wf;
use crate::bricks::first_hit;
use crate::bricks::layout_of;
use crate::bricks::redraw_actions;
use crate::bricks::Brick;
use crate::paddle::Paddle;
use crate::scene::canvas_actions;
use crate::scene::wall_actions;
use crate::render::all_valid;
use crate::render::draw;
use crate::render::paint;
use crate::render::Action;
use crate::render::Color;
use crate::render::Glyph;

verus! {

/// The key that ends the session: `q`.
pub const KEY_QUIT: u8 = 113;

/// Milliseconds between two ticks.
pub const TICK_MILLIS: u64 = 50;

/// Milliseconds the message stays on the screen after a miss.
pub const GAME_OVER_MILLIS: u64 = 2000;

/// Column of the message, outside the right wall of every arena.
pub const STATUS_X: i16 = 85;

/// Row of the message.
pub const STATUS_Y: i16 = 3;

/// What the ball meets at the bottom of the field in one tick.
#[derive(Clone, Copy, Debug, PartialEq, Eq, Structural)]
pub enum Contact {
    /// The ball does not reach the paddle row.
    Clear,
    /// The ball would enter the paddle row above the paddle, which returns
    /// it.
    Bounce,
    /// The ball would enter the paddle row beside the paddle: the rally is
    /// over.
    Miss,
}

/// The whole state of a session.
#[derive(Debug)]
pub struct GameState {
    pub arena: Arena,
    pub ball: Ball,
    pub paddle: Paddle,
    pub bricks: Vec<Brick>,
    pub running: bool,
}

/// The state of a session as a mathematical value.
pub struct GameView {
    pub arena: Arena,
    pub ball: Ball,
    pub paddle: Paddle,
    pub bricks: Seq<Brick>,
    pub running: bool,
}

impl View for GameState {
    type V = GameView;

    open spec fn view(&self) -> GameView {
        GameView {
            arena: self.arena,
            ball: self.ball,
            paddle: self.paddle,
            bricks: self.bricks@,
            running: self.running,
        }
    }
}

/// Where the message after a miss is written.
pub open spec fn status_cell() -> Position {
    Position { x: STATUS_X, y: STATUS_Y }
}

/// What is written before the first frame: a blank screen in the terminal's
/// own style, the cursor in the top left corner.
pub open spec fn open_actions() -> Seq<Action> {
    seq![Action::ClearAll, Action::ResetStyle, Action::MoveCursor { x: 1, y: 1 }]
}

/// What gives the terminal back at the end of the session: a blank screen
/// in the terminal's own style, the cursor visible in the top left corner.
pub open spec fn close_actions() -> Seq<Action> {
    seq![
        Action::ClearAll,
        Action::ResetStyle,
        Action::ShowCursor,
        Action::MoveCursor { x: 1, y: 1 },
        Action::Flush,
    ]
}

impl GameView {
    /// The arena can be played in, and the ball, the paddle and every brick
    /// are where the arena allows them.
    pub open spec fn wf(self) -> bool {
        &&& self.arena.valid()
        &&& self.ball.wf(self.arena)
        &&& self.paddle.wf(self.arena)
        &&& field_wf(self.bricks, self.arena)
    }

    /// The state a session opens with: ball and paddle on their start
    /// cells, the ball moving up and to the right, the opening grid of
    /// bricks, running.
    pub open spec fn opening(self) -> bool {
        &&& self.arena.valid()
        &&& self.ball.position == Ball::home(self.arena)
        &&& self.ball.velocity.dx == 1
        &&& self.ball.velocity.dy == -1
        &&& self.ball.previous_position.is_none()
        &&& self.paddle == (Paddle {
            position: Paddle::home(self.arena),
            last_direction: crate::paddle::Direction::Center,
        })
        &&& self.bricks == layout_of(self.arena)
        &&& self.running
    }

    /// What the ball meets at the bottom of the field in the coming tick.
    /// The paddle returns the ball when the column the ball is on lies in
    /// the paddle's span.
    pub open spec fn contact(self) -> Contact {
        if !self.ball.reached_floor(&self.arena) {
            Contact::Clear
        } else if self.paddle.covers(self.ball.position.x) {
            Contact::Bounce
        } else {
            Contact::Miss
        }
    }

    /// The state after ball and paddle have been put back on their start
    /// cells.
    pub open spec fn after_reset(self) -> GameView {
        GameView {
            arena: self.arena,
            ball: self.ball.rehomed(self.arena),
            paddle: Paddle {
                position: Paddle::home(self.arena),
                last_direction: self.paddle.last_direction,
            },
            bricks: self.bricks,
            running: self.running,
        }
    }

    /// What is written when ball and paddle are put back on their start
    /// cells.
    pub open spec fn reset_actions(self) -> Seq<Action> {
        Ball::home_actions(self.arena) + self.paddle.reset_actions(self.arena)
    }

    /// The state after the ball's move of one tick. A ball that the paddle
    /// returns has its vertical velocity turned round before it moves. On a
    /// miss the ball does not move: ball and paddle go back to their start
    /// cells.
    pub open spec fn after_move_ball(self) -> GameView {
        match self.contact() {
            Contact::Clear => GameView {
                arena: self.arena,
                ball: self.ball.advanced(self.arena),
                paddle: self.paddle,
                bricks: self.bricks,
                running: self.running,
            },
            Contact::Bounce => GameView {
                arena: self.arena,
                ball: self.ball.bounced().advanced(self.arena),
                paddle: self.paddle,
                bricks: self.bricks,
                running: self.running,
            },
            Contact::Miss => GameView {
                arena: self.arena,
                ball: self.ball.served(self.arena),
                paddle: Paddle {
                    position: Paddle::home(self.arena),
                    last_direction: self.paddle.last_direction,
                },
                bricks: self.bricks,
                running: self.running,
            },
        }
    }

    /// What is written for the ball's move of one tick: the ball is erased
    /// where it was and drawn where it is. On a miss the message is shown
    /// for `GAME_OVER_MILLIS` and erased, and ball and paddle are then
    /// drawn on their start cells.
    pub open spec fn move_ball_actions(self) -> Seq<Action> {
        match self.contact() {
            Contact::Miss => seq![
                self.ball.erase_action(),
                draw(status_cell(), Glyph::GameOver, Color::Default),
                Action::Flush,
                Action::Pause(GAME_OVER_MILLIS),
                draw(status_cell(), Glyph::GameOver, Color::Black),
            ] + self.reset_actions(),
            _ => seq![self.ball.erase_action(), self.after_move_ball().ball.draw_action()],
        }
    }

    /// The brick that the ball breaks where it stands, if any.
    pub open spec fn hit(self) -> Option<int> {
        first_hit(self.bricks, self.ball.position)
    }

    /// The state after the ball has been tested against the bricks: the
    /// first unbroken brick that covers the ball's cell is broken and the
    /// ball's velocity is turned round along both axes, once.
    pub open spec fn after_collision(self) -> GameView {
        GameView {
            arena: self.arena,
            ball: if self.hit().is_some() {
                self.ball.reversed()
            } else {
                self.ball
            },
            paddle: self.paddle,
            bricks: after_hit(self.bricks, self.ball.position),
            running: self.running,
        }
    }

    /// The state after one tick's input: the quit key stops the session,
    /// the two movement keys move the paddle, and no key or any other byte
    /// changes nothing.
    pub open spec fn after_key(self, key: Option<u8>) -> GameView {
        GameView {
            arena: self.arena,
            ball: self.ball,
            paddle: self.paddle.after_key(self.arena, key),
            bricks: self.bricks,
            running: self.running && key != Some(KEY_QUIT),
        }
    }

    /// The state after one tick. A stopped session does not change.
    pub open spec fn after_tick(self, key: Option<u8>) -> GameView {
        if self.running {
            self.after_move_ball().after_collision().after_key(key)
        } else {
            self
        }
    }

    /// What a tick hands out, in order: the ball's move, the brick that
    /// broke, the paddle's move, one flush and the pause between two
    /// ticks; and, on the tick that stops the session, what gives the
    /// terminal back. A stopped session hands out nothing.
    pub open spec fn tick_actions(self, key: Option<u8>) -> Seq<Action> {
        if self.running {
            let moved = self.after_move_ball();
            self.move_ball_actions() + redraw_actions(moved.bricks, moved.hit())
                + moved.paddle.key_actions(self.arena, key) + seq![
                Action::Flush,
                Action::Pause(TICK_MILLIS),
            ] + if key == Some(KEY_QUIT) {
                close_actions()
            } else {
                Seq::empty()
            }
        } else {
            Seq::empty()
        }
    }

    /// The state after consecutive ticks, one for each entry of `keys`.
    pub open spec fn run(self, keys: Seq<Option<u8>>) -> GameView
        decreases keys.len(),
    {
        if keys.len() == 0 {
            self
        } else {
            self.run(keys.drop_last()).after_tick(keys.last())
        }
    }

    /// What is written when the session starts: the cursor is hidden, and
    /// paddle and ball are drawn on their start cells.
    pub open spec fn start_actions(self) -> Seq<Action> {
        seq![Action::HideCursor] + self.paddle.reset_actions(self.arena) + Ball::home_actions(
            self.arena,
        ) + seq![Action::Flush]
    }
}

impl GameState {
    /// The arena can be played in, and the ball, the paddle and every brick
    /// are where the arena allows them.
    pub open spec fn wf(&self) -> bool {
        self@.wf()
    }

    /// A session in an arena of the given size, in its opening state; or
    /// `None` where the arena cannot be played in.
    pub fn new(width: u16, height: u16) -> (game: Option<GameState>)
        ensures
            game.is_some() == (Arena { width, height }).valid(),
            game.is_some() ==> {
                &&& game.unwrap().arena == (Arena { width, height })
                &&& game.unwrap()@.opening()
                &&& game.unwrap().wf()
            },
    {
        match Arena::new(width, height) {
            Some(arena) => {
                let ball: Ball = Ball::new(&arena);
                let paddle: Paddle = Paddle::new(&arena);
                let bricks: Vec<Brick> = crate::bricks::layout(&arena);
                Some(GameState { arena, ball, paddle, bricks, running: true })
            },
            None => None,
        }
    }

    /// Whether the state is one the game can be played from.
    pub fn is_wf(&self) -> (r: bool)
        ensures
            r == self.wf(),
    {
        self.arena.is_valid() && self.ball.is_wf(&self.arena) && self.paddle.is_wf(&self.arena)
            && crate::bricks::is_field_wf(&self.bricks, &self.arena)
    }

    /// Whether the session has not been stopped.
    pub fn is_running(&self) -> (r: bool)
        ensures
            r == self.running,
    {
        self.running
    }

    /// What the ball meets at the bottom of the field in the coming tick.
    pub fn contact(&self) -> (contact: Contact)
        requires
            self.wf(),
        ensures
            contact == self@.contact(),
    {
        if !self.ball.reached_floor(&self.arena) {
            Contact::Clear
        } else if self.paddle.covers(self.ball.position.x) {
            Contact::Bounce
        } else {
            Contact::Miss
        }
    }

    /// Puts the ball back on its start cell and says what to write.
    pub fn move_ball_to_initial_position(&mut self) -> (actions: Vec<Action>)
        requires
            old(self).wf(),
        ensures
            final(self)@ == (GameView { ball: old(self).ball.rehomed(old(self).arena), ..old(self)@ }),
            final(self).wf(),
            actions@ == Ball::home_actions(old(self).arena),
            all_valid(actions@),
    {
        self.ball.move_to_initial_position(&self.arena)
    }

    /// Puts the paddle back on its start cell and says what to write.
    pub fn move_paddle_to_initial_position(&mut self) -> (actions: Vec<Action>)
        requires
            old(self).wf(),
        ensures
            final(self)@ == (GameView {
                paddle: Paddle {
                    position: Paddle::home(old(self).arena),
                    last_direction: old(self).paddle.last_direction,
                },
                ..old(self)@
            }),
            final(self).wf(),
            actions@ == old(self).paddle.reset_actions(old(self).arena),
            all_valid(actions@),
    {
        self.paddle.reset(&self.arena)
    }

    /// Puts ball and paddle back on their start cells and says what to
    /// write.
    pub fn reset_ball_and_paddle_positions(&mut self) -> (actions: Vec<Action>)
        requires
            old(self).wf(),
        ensures
            final(self)@ == old(self)@.after_reset(),
            final(self).wf(),
            actions@ == old(self)@.reset_actions(),
            all_valid(actions@),
    {
        let mut actions: Vec<Action> = self.move_ball_to_initial_position();
        let mut paddle_actions: Vec<Action> = self.move_paddle_to_initial_position();
        actions.append(&mut paddle_actions);
        actions
    }

    /// Moves the ball for one tick and says what to write. The ball stays
    /// inside the walls and above the paddle row.
    pub fn move_ball(&mut self) -> (actions: Vec<Action>)
        requires
            old(self).wf(),
        ensures
            final(self)@ == old(self)@.after_move_ball(),
            final(self).wf(),
            final(self).arena.interior(final(self).ball.position),
            actions@ == old(self)@.move_ball_actions(),
            all_valid(actions@),
    {
        let mut actions: Vec<Action> = Vec::new();
        actions.push(self.ball.clear_previous_ball_position(&self.arena));
        match self.contact() {
            Contact::Clear => {
                self.ball.advance(&self.arena);
                actions.push(self.ball.write_new_ball_position(&self.arena));
            },
            Contact::Bounce => {
                self.ball.velocity.dy = -self.ball.velocity.dy;
                self.ball.advance(&self.arena);
                actions.push(self.ball.write_new_ball_position(&self.arena));
            },
            Contact::Miss => {
                if self.ball.reached_left_wall(&self.arena) || self.ball.reached_right_wall(
                    &self.arena,
                ) {
                    self.ball.velocity.dx = -self.ball.velocity.dx;
                }
                let status: Position = Position { x: STATUS_X, y: STATUS_Y };
                actions.push(paint(status, Glyph::GameOver, Color::Default));
                actions.push(Action::Flush);
                actions.push(Action::Pause(GAME_OVER_MILLIS));
                actions.push(paint(status, Glyph::GameOver, Color::Black));
                let mut reset_actions: Vec<Action> = self.reset_ball_and_paddle_positions();
                actions.append(&mut reset_actions);
            },
        }
        actions
    }

    /// Tests the ball against the bricks. The first unbroken brick that
    /// covers the ball's cell is broken and the ball is turned round along
    /// both axes; its index is returned. No broken brick is ever hit, and
    /// no brick is mended.
    pub fn detect_collision(&mut self) -> (hit: Option<usize>)
        requires
            old(self).wf(),
        ensures
            final(self)@ == old(self)@.after_collision(),
            final(self).wf(),
            hit.is_some() == old(self)@.hit().is_some(),
            hit.is_some() ==> old(self)@.hit() == Some(hit.unwrap() as int),
            hit.is_some() ==> hit.unwrap() < old(self).bricks.len() && !old(self).bricks[hit.unwrap() as int].broken,
            final(self).bricks.len() == old(self).bricks.len(),
            forall|i: int|
                0 <= i < old(self).bricks.len() && (#[trigger] old(self).bricks[i]).broken
                    ==> final(self).bricks[i].broken,
    {
        let hit: Option<usize> = crate::bricks::strike(
            &mut self.bricks,
            self.ball.position,
            &self.arena,
        );
        match hit {
            Some(i) => {
                proof {
                    crate::bricks::lemma_hit_brick_is_hit_once(
                        old(self).bricks@,
                        self.ball.position,
                        i as int,
                    );
                }
                self.ball.velocity.dx = -self.ball.velocity.dx;
                self.ball.velocity.dy = -self.ball.velocity.dy;
            },
            None => {},
        }
        hit
    }

    /// Says what to write for the bricks after a collision test: the brick
    /// that was hit, if any, is erased.
    pub fn redraw_bricks(&self, hit: Option<usize>) -> (actions: Vec<Action>)
        requires
            self.wf(),
            hit.is_some() ==> hit.unwrap() < self.bricks.len(),
        ensures
            hit.is_some() ==> actions@ == redraw_actions(self.bricks@, Some(hit.unwrap() as int)),
            hit.is_none() ==> actions@ == redraw_actions(self.bricks@, None),
            all_valid(actions@),
    {
        crate::bricks::redraw(&self.bricks, hit, &self.arena)
    }

    /// Applies one tick's input and says what to write.
    pub fn move_paddle(&mut self, key: Option<u8>) -> (actions: Vec<Action>)
        requires
            old(self).wf(),
        ensures
            final(self)@ == old(self)@.after_key(key),
            final(self).wf(),
            actions@ == old(self).paddle.key_actions(old(self).arena, key),
            all_valid(actions@),
    {
        match key {
            Some(KEY_QUIT) => {
                self.running = false;
                Vec::new()
            },
            _ => self.paddle.handle_key(&self.arena, key),
        }
    }

    /// What to write to paint the canvas.
    pub fn draw_canvas(&self) -> (actions: Vec<Action>)
        requires
            self.arena.valid(),
        ensures
            actions@ == canvas_actions(self.arena),
            all_valid(actions@),
    {
        crate::scene::draw_canvas(&self.arena)
    }

    /// What to write to paint the four walls.
    pub fn draw_walls(&self) -> (actions: Vec<Action>)
        requires
            self.arena.valid(),
        ensures
            actions@ == wall_actions(self.arena),
            all_valid(actions@),
    {
        crate::scene::draw_walls(&self.arena)
    }

    /// What to write to paint every brick: whole bricks in the terminal's
    /// own colour, broken ones erased.
    pub fn draw_bricks(&self) -> (actions: Vec<Action>)
        requires
            self.wf(),
        ensures
            actions@ == field_actions(self.bricks@),
            all_valid(actions@),
    {
        crate::bricks::draw_field(&self.bricks, &self.arena)
    }

    /// What to write before the first frame.
    pub fn open_screen() -> (actions: Vec<Action>)
        ensures
            actions@ == open_actions(),
            all_valid(actions@),
    {
        let mut actions: Vec<Action> = Vec::new();
        actions.push(Action::ClearAll);
        actions.push(Action::ResetStyle);
        actions.push(Action::MoveCursor { x: 1, y: 1 });
        actions
    }

    /// What to write to give the terminal back.
    pub fn close_screen() -> (actions: Vec<Action>)
        ensures
            actions@ == close_actions(),
            all_valid(actions@),
    {
        let mut actions: Vec<Action> = Vec::new();
        actions.push(Action::ClearAll);
        actions.push(Action::ResetStyle);
        actions.push(Action::ShowCursor);
        actions.push(Action::MoveCursor { x: 1, y: 1 });
        actions.push(Action::Flush);
        actions
    }

    /// Starts a rally: ball and paddle go to their start cells, and the
    /// actions hide the cursor and draw both.
    pub fn start(&mut self) -> (actions: Vec<Action>)
        requires
            old(self).wf(),
        ensures
            final(self)@ == old(self)@.after_reset(),
            final(self).wf(),
            actions@ == old(self)@.start_actions(),
            all_valid(actions@),
    {
        let mut actions: Vec<Action> = Vec::new();
        actions.push(Action::HideCursor);
        let mut paddle_actions: Vec<Action> = self.move_paddle_to_initial_position();
        actions.append(&mut paddle_actions);
        let mut ball_actions: Vec<Action> = self.move_ball_to_initial_position();
        actions.append(&mut ball_actions);
        actions.push(Action::Flush);
        actions
    }

    /// Plays one tick with the key that was pressed, if any, and hands out
    /// what the program has to do before the next tick.
    ///
    /// The session stops on the quit key and on nothing else, and the tick
    /// that stops it is the only one that gives the terminal back. A
    /// stopped session stays as it is and hands out nothing.
    pub fn tick(&mut self, key: Option<u8>) -> (actions: Vec<Action>)
        requires
            old(self).wf(),
        ensures
            final(self)@ == old(self)@.after_tick(key),
            final(self).wf(),
            final(self).arena.interior(final(self).ball.position),
            final(self).running == (old(self).running && key != Some(KEY_QUIT)),
            actions@ == old(self)@.tick_actions(key),
            all_valid(actions@),
    {
        let mut actions: Vec<Action> = Vec::new();
        if !self.running {
            return actions;
        }
        let mut ball_actions: Vec<Action> = self.move_ball();
        actions.append(&mut ball_actions);
        let hit: Option<usize> = self.detect_collision();
        let mut brick_actions: Vec<Action> = self.redraw_bricks(hit);
        actions.append(&mut brick_actions);
        let mut paddle_actions: Vec<Action> = self.move_paddle(key);
        actions.append(&mut paddle_actions);
        actions.push(Action::Flush);
        actions.push(Action::Pause(TICK_MILLIS));
        if !self.running {
            let mut closing: Vec<Action> = GameState::close_screen();
            actions.append(&mut closing);
        }
        actions
    }
}

/// One tick keeps a playable state playable, in the same arena and with as
/// many bricks.
pub proof fn lemma_tick_preserves_wf(v: GameView, key: Option<u8>)
    requires
        v.wf(),
    ensures
        v.after_tick(key).wf(),
        v.after_tick(key).arena == v.arena,
        v.after_tick(key).bricks.len() == v.bricks.len(),
{
    let moved = v.after_move_ball();
    assert(moved.wf());
    assert(moved.after_collision().wf());
}

/// The ball's move turns each component of the velocity round at most once:
/// the horizontal one exactly when a side wall is within a cell, the
/// vertical one exactly when the top wall is within a cell or the paddle
/// returns the ball, which never happens in the same tick.
pub proof fn lemma_one_reflection_per_axis(v: GameView)
    requires
        v.wf(),
    ensures
        !(v.ball.reflection(v.arena).vertical && v.ball.reached_floor(&v.arena)),
        v.after_move_ball().ball.velocity.dx == (if v.ball.reflection(v.arena).horizontal {
            -v.ball.velocity.dx
        } else {
            v.ball.velocity.dx as int
        }),
        v.after_move_ball().ball.velocity.dy == (if v.ball.reflection(v.arena).vertical
            || v.contact() == Contact::Bounce {
            -v.ball.velocity.dy
        } else {
            v.ball.velocity.dy as int
        }),
{
}

/// However many ticks are played, and with whichever keys, the ball is on a
/// cell strictly between the four walls after each of them; it is even
/// above the paddle row, because a ball that would enter that row is
/// returned or put back on its start cell instead.
pub proof fn lemma_ball_stays_inside_walls(v: GameView, keys: Seq<Option<u8>>)
    requires
        v.wf(),
    ensures
        v.run(keys).wf(),
        v.run(keys).arena == v.arena,
        v.run(keys).bricks.len() == v.bricks.len(),
        v.arena.interior(v.run(keys).ball.position),
        v.arena.left() + 1 <= v.run(keys).ball.position.x <= v.arena.right() - 1,
        v.arena.top() + 1 <= v.run(keys).ball.position.y <= v.arena.bottom() - 1,
        v.run(keys).ball.position.y < v.arena.paddle_row(),
    decreases keys.len(),
{
    if keys.len() > 0 {
        lemma_ball_stays_inside_walls(v, keys.drop_last());
        lemma_tick_preserves_wf(v.run(keys.drop_last()), keys.last());
    }
}

/// However many ticks are played, and with whichever keys, the paddle stays
/// in its row with its leftmost cell between one cell right of the left
/// wall and its width plus one cell left of the right wall.
pub proof fn lemma_paddle_stays_between_walls(v: GameView, keys: Seq<Option<u8>>)
    requires
        v.wf(),
    ensures
        v.run(keys).paddle.position.y == v.arena.paddle_row(),
        v.arena.left() + 1 <= v.run(keys).paddle.position.x <= v.arena.right() - 1
            - crate::paddle::PADDLE_WIDTH,
{
    lemma_ball_stays_inside_walls(v, keys);
}

/// A broken brick takes no part in the collision test: it is not the brick
/// that is hit, and it is still broken afterwards.
pub proof fn lemma_broken_brick_is_not_hit(v: GameView, i: int)
    requires
        0 <= i < v.bricks.len(),
        v.bricks[i].broken,
    ensures
        v.hit() != Some(i),
        v.after_collision().bricks.len() == v.bricks.len(),
        v.after_collision().bricks[i].broken,
{
    crate::bricks::lemma_broken_brick_is_never_hit(v.bricks, v.ball.position, i);
}

/// A ball on a cell whose bricks are all broken passes: the collision test
/// changes neither the ball nor any brick.
pub proof fn lemma_ball_passes_broken_bricks(v: GameView)
    requires
        forall|j: int|
            0 <= j < v.bricks.len() && (#[trigger] v.bricks[j]).covers(v.ball.position)
                ==> v.bricks[j].broken,
    ensures
        v.hit().is_none(),
        v.after_collision() == v,
{
    crate::bricks::lemma_broken_cells_are_free(v.bricks, v.ball.position);
}

/// A brick that is broken stays broken through every later tick, and no
/// later tick hits it, wherever the ball goes.
pub proof fn lemma_broken_brick_stays_broken(v: GameView, keys: Seq<Option<u8>>, i: int)
    requires
        0 <= i < v.bricks.len(),
        v.bricks[i].broken,
    ensures
        v.run(keys).bricks.len() == v.bricks.len(),
        v.run(keys).bricks[i] == v.bricks[i],
        v.run(keys).after_move_ball().hit() != Some(i),
    decreases keys.len(),
{
    if keys.len() > 0 {
        let before = v.run(keys.drop_last());
        lemma_broken_brick_stays_broken(v, keys.drop_last(), i);
        if before.running {
            crate::bricks::lemma_broken_brick_is_never_hit(
                before.after_move_ball().bricks,
                before.after_move_ball().ball.position,
                i,
            );
        }
    }
    let now = v.run(keys);
    crate::bricks::lemma_broken_brick_is_never_hit(
        now.after_move_ball().bricks,
        now.after_move_ball().ball.position,
        i,
    );
}

/// A tick breaks at most one brick: every brick but the one that is hit is
/// as it was.
pub proof fn lemma_tick_breaks_at_most_one_brick(v: GameView, key: Option<u8>, j: int)
    requires
        v.running,
        0 <= j < v.bricks.len(),
        v.after_move_ball().hit() != Some(j),
    ensures
        v.after_tick(key).bricks.len() == v.bricks.len(),
        v.after_tick(key).bricks[j] == v.bricks[j],
{
    let moved = v.after_move_ball();
    if moved.hit().is_some() {
        crate::bricks::lemma_hit_brick_is_hit_once(
            moved.bricks,
            moved.ball.position,
            moved.hit().unwrap(),
        );
    }
}

/// A running session stops on the quit key and on no other input.
pub proof fn lemma_only_quit_stops(v: GameView, key: Option<u8>)
    requires
        v.running,
    ensures
        v.after_tick(key).running == (key != Some(KEY_QUIT)),
{
}

/// A stopped session is at its end: no tick changes it, and no tick hands
/// anything out. The terminal is therefore given back once, by the tick
/// that stopped the session.
pub proof fn lemma_stopped_is_final(v: GameView, keys: Seq<Option<u8>>)
    requires
        !v.running,
    ensures
        v.run(keys) == v,
        forall|key: Option<u8>| #[trigger] v.tick_actions(key) == Seq::<Action>::empty(),
    decreases keys.len(),
{
    if keys.len() > 0 {
        lemma_stopped_is_final(v, keys.drop_last());
    }
}

/// The message after a miss is written to the right of the right wall.
pub proof fn lemma_status_is_outside(arena: Arena)
    requires
        arena.valid(),
    ensures
        status_cell().x > arena.right(),
        !arena.interior(status_cell()),
{
}

} // verus!
