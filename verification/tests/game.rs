use brickout::arena::Arena;
use brickout::arena::Position;
use brickout::arena::MAX_WIDTH;
use brickout::ball::Ball;
use brickout::ball::Velocity;
use brickout::bricks::layout;
use brickout::bricks::Brick;
use brickout::game::Contact;
use brickout::game::GameState;
use brickout::game::GAME_OVER_MILLIS;
use brickout::game::KEY_QUIT;
use brickout::game::STATUS_X;
use brickout::game::STATUS_Y;
use brickout::game::TICK_MILLIS;
use brickout::paddle::Direction;
use brickout::paddle::Paddle;
use brickout::render::Action;
use brickout::render::Color;
use brickout::render::Glyph;
use brickout::render::Put;

fn put(x: u16, y: u16, glyph: Glyph, color: Color) -> Action {
    Action::Draw(Put { x, y, glyph, color })
}

fn game_with(x: i16, y: i16, dx: i16, dy: i16, paddle_x: i16, bricks: Vec<Brick>) -> GameState {
    let arena = Arena::new(80, 40).unwrap();
    let game = GameState {
        arena,
        ball: Ball { position: Position { x, y }, velocity: Velocity { dx, dy }, previous_position: None },
        paddle: Paddle { position: Position { x: paddle_x, y: 36 }, last_direction: Direction::Center },
        bricks,
        running: true,
    };
    assert!(game.is_wf());
    game
}

fn closing() -> Vec<Action> {
    vec![
        Action::ClearAll,
        Action::ResetStyle,
        Action::ShowCursor,
        Action::MoveCursor { x: 1, y: 1 },
        Action::Flush,
    ]
}

#[test]
fn constants_of_the_loop() {
    assert_eq!(KEY_QUIT, b'q');
    assert_eq!(TICK_MILLIS, 50);
    assert_eq!(GAME_OVER_MILLIS, 2000);
    assert_eq!((STATUS_X, STATUS_Y), (85, 3));
    assert!(STATUS_X as u16 > MAX_WIDTH);
}

#[test]
fn new_game_opens_with_ball_paddle_and_bricks_in_place() {
    let game = GameState::new(80, 40).unwrap();
    assert_eq!(game.arena, Arena { width: 80, height: 40 });
    assert_eq!(game.ball.position, Position { x: 40, y: 35 });
    assert_eq!(game.ball.velocity, Velocity { dx: 1, dy: -1 });
    assert_eq!(game.ball.previous_position, None);
    assert_eq!(game.paddle.position, Position { x: 35, y: 36 });
    assert_eq!(game.paddle.last_direction, Direction::Center);
    assert_eq!(game.bricks, layout(&game.arena));
    assert_eq!(game.bricks.len(), 117);
    assert!(game.running);
    assert!(game.is_running());
    assert!(game.is_wf());
}

#[test]
fn new_game_wants_an_arena_that_holds_the_start_cells() {
    assert!(GameState::new(46, 9).is_some());
    assert!(GameState::new(84, 40).is_some());
    assert!(GameState::new(45, 40).is_none());
    assert!(GameState::new(85, 40).is_none());
    assert!(GameState::new(80, 8).is_none());
    assert!(GameState::new(80, 32768).is_none());
    assert!(GameState::new(0, 0).is_none());
    assert!(Arena::new(80, 32767).is_some());
    assert!(Arena::new(80, 40).unwrap().is_valid());
    assert!(!Arena { width: 45, height: 40 }.is_valid());
}

#[test]
fn arena_walls_stand_on_the_border() {
    let arena = Arena::new(80, 40).unwrap();
    assert_eq!(arena.left(), 1);
    assert_eq!(arena.right(), 80);
    assert_eq!(arena.top(), 1);
    assert_eq!(arena.bottom(), 40);
    assert_eq!(arena.paddle_row(), 36);
}

#[test]
fn first_tick_without_input_moves_the_ball_diagonally() {
    let mut game = GameState::new(80, 40).unwrap();
    let actions = game.tick(None);
    assert_eq!(game.ball.position, Position { x: 41, y: 34 });
    assert_eq!(game.ball.velocity, Velocity { dx: 1, dy: -1 });
    assert_eq!(game.ball.previous_position, Some(Position { x: 40, y: 35 }));
    assert_eq!(game.paddle.position, Position { x: 35, y: 36 });
    assert_eq!(game.paddle.last_direction, Direction::Center);
    assert_eq!(game.bricks, layout(&game.arena));
    assert!(game.running);
    assert_eq!(
        actions,
        vec![
            put(40, 35, Glyph::Ball, Color::Black),
            put(41, 34, Glyph::Ball, Color::Green),
            Action::Flush,
            Action::Pause(50),
        ]
    );
}

#[test]
fn tick_reflects_off_the_left_wall() {
    let mut game = game_with(2, 20, -1, 0, 35, Vec::new());
    game.tick(None);
    assert_eq!(game.ball.position, Position { x: 3, y: 20 });
    assert_eq!(game.ball.velocity, Velocity { dx: 1, dy: 0 });
}

#[test]
fn paddle_returns_a_ball_above_its_span() {
    for x in [35, 40, 44] {
        let mut game = game_with(x, 35, 1, 1, 35, Vec::new());
        assert_eq!(game.contact(), Contact::Bounce);
        let actions = game.tick(None);
        assert_eq!(game.ball.position, Position { x: x + 1, y: 34 });
        assert_eq!(game.ball.velocity, Velocity { dx: 1, dy: -1 });
        assert_eq!(game.paddle.position, Position { x: 35, y: 36 });
        assert_eq!(actions.len(), 4);
    }
}

#[test]
fn paddle_returns_a_ball_that_falls_straight_down() {
    let mut game = game_with(40, 35, 0, 1, 35, Vec::new());
    game.tick(None);
    assert_eq!(game.ball.position, Position { x: 40, y: 34 });
    assert_eq!(game.ball.velocity, Velocity { dx: 0, dy: -1 });
}

#[test]
fn contact_is_clear_until_the_ball_would_enter_the_paddle_row() {
    assert_eq!(game_with(40, 34, 1, 1, 35, Vec::new()).contact(), Contact::Clear);
    assert_eq!(game_with(40, 35, 1, -1, 35, Vec::new()).contact(), Contact::Clear);
    assert_eq!(game_with(40, 35, 1, 0, 35, Vec::new()).contact(), Contact::Clear);
    assert_eq!(game_with(40, 35, 1, 1, 35, Vec::new()).contact(), Contact::Bounce);
    assert_eq!(game_with(34, 35, 1, 1, 35, Vec::new()).contact(), Contact::Miss);
    assert_eq!(game_with(45, 35, -1, 1, 35, Vec::new()).contact(), Contact::Miss);
}

#[test]
fn miss_shows_the_message_and_restarts_the_rally() {
    let mut game = game_with(10, 35, 1, 1, 51, Vec::new());
    game.paddle.last_direction = Direction::Right;
    game.ball.previous_position = Some(Position { x: 9, y: 34 });
    assert_eq!(game.contact(), Contact::Miss);
    let actions = game.tick(None);
    assert_eq!(game.ball.position, Position { x: 40, y: 35 });
    assert_eq!(game.ball.velocity, Velocity { dx: 1, dy: 1 });
    assert_eq!(game.ball.previous_position, None);
    assert_eq!(game.paddle.position, Position { x: 35, y: 36 });
    assert_eq!(game.paddle.last_direction, Direction::Right);
    assert!(game.running);
    assert_eq!(
        actions,
        vec![
            put(10, 35, Glyph::Ball, Color::Black),
            put(85, 3, Glyph::GameOver, Color::Default),
            Action::Flush,
            Action::Pause(2000),
            put(85, 3, Glyph::GameOver, Color::Black),
            put(40, 35, Glyph::Ball, Color::Green),
            Action::MoveCursor { x: 1, y: 45 },
            put(51, 36, Glyph::Paddle, Color::Black),
            put(35, 36, Glyph::Paddle, Color::Blue),
            Action::Flush,
            Action::Pause(50),
        ]
    );
    // the rally goes on: the paddle at its start cell returns the ball
    game.tick(None);
    assert_eq!(game.ball.position, Position { x: 41, y: 34 });
    assert_eq!(game.ball.velocity, Velocity { dx: 1, dy: -1 });
    assert!(game.running);
}

#[test]
fn miss_beside_either_end_of_the_paddle() {
    for x in [34, 45] {
        let mut game = game_with(x, 35, 0, 1, 35, Vec::new());
        game.tick(None);
        assert_eq!(game.ball.position, Position { x: 40, y: 35 });
        assert_eq!(game.ball.velocity, Velocity { dx: 0, dy: 1 });
    }
}

#[test]
fn miss_next_to_a_side_wall_still_turns_the_ball_round() {
    let mut game = game_with(78, 35, 1, 1, 35, Vec::new());
    game.tick(None);
    assert_eq!(game.ball.position, Position { x: 40, y: 35 });
    assert_eq!(game.ball.velocity, Velocity { dx: -1, dy: 1 });
}

#[test]
fn ball_on_a_brick_breaks_it_and_turns_round() {
    let mut game = GameState::new(80, 40).unwrap();
    game.ball = Ball {
        position: Position { x: 4, y: 4 },
        velocity: Velocity { dx: 1, dy: -1 },
        previous_position: None,
    };
    let actions = game.tick(None);
    assert_eq!(game.ball.position, Position { x: 5, y: 3 });
    assert_eq!(game.ball.velocity, Velocity { dx: -1, dy: 1 });
    assert!(game.bricks[0].broken);
    assert_eq!(game.bricks.iter().filter(|b| b.broken).count(), 1);
    assert_eq!(
        actions,
        vec![
            put(4, 4, Glyph::Ball, Color::Black),
            put(5, 3, Glyph::Ball, Color::Green),
            put(3, 3, Glyph::Brick, Color::Black),
            Action::Flush,
            Action::Pause(50),
        ]
    );
}

#[test]
fn only_the_first_of_two_bricks_on_one_cell_breaks() {
    let bricks = vec![
        Brick { position: Position { x: 10, y: 10 }, broken: false },
        Brick { position: Position { x: 12, y: 10 }, broken: false },
    ];
    let mut game = game_with(11, 11, 1, -1, 35, bricks);
    let actions = game.tick(None);
    assert_eq!(game.ball.position, Position { x: 12, y: 10 });
    assert_eq!(game.ball.velocity, Velocity { dx: -1, dy: 1 });
    assert!(game.bricks[0].broken);
    assert!(!game.bricks[1].broken);
    assert_eq!(actions[2], put(10, 10, Glyph::Brick, Color::Black));
    assert_eq!(actions.len(), 5);
}

#[test]
fn detect_collision_names_the_brick_it_broke() {
    let mut game = GameState::new(80, 40).unwrap();
    game.ball.position = Position { x: 79, y: 19 };
    assert_eq!(game.detect_collision(), Some(116));
    assert_eq!(game.ball.velocity, Velocity { dx: -1, dy: 1 });
    assert_eq!(game.redraw_bricks(Some(116)), vec![put(75, 19, Glyph::Brick, Color::Black)]);
    assert_eq!(game.detect_collision(), None);
    assert_eq!(game.ball.velocity, Velocity { dx: -1, dy: 1 });
    assert!(game.redraw_bricks(None).is_empty());
}

#[test]
fn broken_brick_lets_the_ball_pass() {
    let mut game = GameState::new(80, 40).unwrap();
    game.ball = Ball {
        position: Position { x: 4, y: 4 },
        velocity: Velocity { dx: 1, dy: -1 },
        previous_position: None,
    };
    game.tick(None);
    assert!(game.bricks[0].broken);
    game.tick(None);
    assert_eq!(game.ball.position, Position { x: 4, y: 4 });
    // the ball goes back to the cell of the broken brick
    game.ball.velocity = Velocity { dx: 1, dy: -1 };
    let bricks_before = game.bricks.clone();
    let actions = game.tick(None);
    assert_eq!(game.ball.position, Position { x: 5, y: 3 });
    assert_eq!(game.ball.velocity, Velocity { dx: 1, dy: -1 });
    assert_eq!(game.bricks, bricks_before);
    assert_eq!(
        actions,
        vec![
            put(4, 4, Glyph::Ball, Color::Black),
            put(5, 3, Glyph::Ball, Color::Green),
            Action::Flush,
            Action::Pause(50),
        ]
    );
    // and is turned round by the top wall, not by the brick
    game.tick(None);
    assert_eq!(game.ball.position, Position { x: 6, y: 4 });
    assert_eq!(game.ball.velocity, Velocity { dx: 1, dy: 1 });
}

#[test]
fn movement_keys_move_the_paddle_after_the_ball() {
    let mut game = GameState::new(80, 40).unwrap();
    let actions = game.tick(Some(b'h'));
    assert_eq!(game.paddle.position, Position { x: 33, y: 36 });
    assert_eq!(game.paddle.last_direction, Direction::Left);
    assert_eq!(
        actions,
        vec![
            put(40, 35, Glyph::Ball, Color::Black),
            put(41, 34, Glyph::Ball, Color::Green),
            put(43, 36, Glyph::Ball, Color::Black),
            put(44, 36, Glyph::Ball, Color::Black),
            put(33, 36, Glyph::Paddle, Color::Blue),
            Action::Flush,
            Action::Pause(50),
        ]
    );
    let actions = game.tick(Some(b'k'));
    assert_eq!(game.paddle.position, Position { x: 35, y: 36 });
    assert_eq!(game.paddle.last_direction, Direction::Right);
    assert_eq!(actions[2], put(33, 36, Glyph::Ball, Color::Black));
    assert_eq!(actions[3], put(34, 36, Glyph::Ball, Color::Black));
    assert_eq!(actions[4], put(35, 36, Glyph::Paddle, Color::Blue));
}

#[test]
fn unknown_bytes_are_ignored() {
    for key in [Some(b'x'), Some(b'Q'), Some(0u8), Some(27u8), None] {
        let mut game = GameState::new(80, 40).unwrap();
        let actions = game.tick(key);
        assert!(game.running);
        assert_eq!(game.paddle.position, Position { x: 35, y: 36 });
        assert_eq!(game.paddle.last_direction, Direction::Center);
        assert_eq!(actions.len(), 4);
    }
}

#[test]
fn quit_key_stops_the_session_and_gives_the_terminal_back_once() {
    let mut game = GameState::new(80, 40).unwrap();
    game.tick(None);
    let actions = game.tick(Some(b'q'));
    assert!(!game.running);
    assert!(!game.is_running());
    assert_eq!(game.ball.position, Position { x: 42, y: 33 });
    let mut expected = vec![
        put(41, 34, Glyph::Ball, Color::Black),
        put(42, 33, Glyph::Ball, Color::Green),
        Action::Flush,
        Action::Pause(50),
    ];
    expected.extend(closing());
    assert_eq!(actions, expected);

    for key in [None, Some(b'h'), Some(b'k'), Some(b'q')] {
        let actions = game.tick(key);
        assert!(actions.is_empty());
        assert!(!game.running);
        assert_eq!(game.ball.position, Position { x: 42, y: 33 });
        assert_eq!(game.paddle.position, Position { x: 35, y: 36 });
    }
}

#[test]
fn move_paddle_alone_applies_one_key() {
    let mut game = GameState::new(80, 40).unwrap();
    assert_eq!(game.move_paddle(Some(b'k')).len(), 3);
    assert_eq!(game.paddle.position.x, 37);
    assert!(game.move_paddle(None).is_empty());
    assert!(game.running);
    assert!(game.move_paddle(Some(b'q')).is_empty());
    assert!(!game.running);
    assert_eq!(game.paddle.position.x, 37);
}

#[test]
fn move_ball_alone_erases_and_draws() {
    let mut game = game_with(20, 20, -1, 1, 35, Vec::new());
    assert_eq!(
        game.move_ball(),
        vec![put(20, 20, Glyph::Ball, Color::Black), put(19, 21, Glyph::Ball, Color::Green)]
    );
    assert_eq!(game.ball.position, Position { x: 19, y: 21 });
}

#[test]
fn start_hides_the_cursor_and_draws_paddle_and_ball() {
    let mut game = GameState::new(80, 40).unwrap();
    let actions = game.start();
    assert_eq!(
        actions,
        vec![
            Action::HideCursor,
            put(35, 36, Glyph::Paddle, Color::Black),
            put(35, 36, Glyph::Paddle, Color::Blue),
            put(40, 35, Glyph::Ball, Color::Green),
            Action::MoveCursor { x: 1, y: 45 },
            Action::Flush,
        ]
    );
    assert_eq!(game.ball.position, Position { x: 40, y: 35 });
    assert_eq!(game.paddle.position, Position { x: 35, y: 36 });
    assert!(game.running);
}

#[test]
fn reset_puts_ball_and_paddle_back() {
    let mut game = game_with(12, 9, -1, 1, 51, layout(&Arena::new(80, 40).unwrap()));
    let actions = game.reset_ball_and_paddle_positions();
    assert_eq!(game.ball.position, Position { x: 40, y: 35 });
    assert_eq!(game.ball.velocity, Velocity { dx: -1, dy: 1 });
    assert_eq!(game.paddle.position, Position { x: 35, y: 36 });
    assert_eq!(
        actions,
        vec![
            put(40, 35, Glyph::Ball, Color::Green),
            Action::MoveCursor { x: 1, y: 45 },
            put(51, 36, Glyph::Paddle, Color::Black),
            put(35, 36, Glyph::Paddle, Color::Blue),
        ]
    );
    assert_eq!(game.move_ball_to_initial_position().len(), 2);
    assert_eq!(game.move_paddle_to_initial_position().len(), 2);
}

#[test]
fn screen_is_opened_and_closed_with_fixed_actions() {
    assert_eq!(
        GameState::open_screen(),
        vec![Action::ClearAll, Action::ResetStyle, Action::MoveCursor { x: 1, y: 1 }]
    );
    assert_eq!(GameState::close_screen(), closing());
}

#[test]
fn canvas_is_painted_column_by_column_in_black() {
    let game = GameState::new(80, 40).unwrap();
    let actions = game.draw_canvas();
    assert_eq!(actions.len(), 1 + 79 * 39);
    assert_eq!(actions[0], Action::BlackBackground);
    assert_eq!(actions[1], put(1, 1, Glyph::Ball, Color::Black));
    assert_eq!(actions[2], put(1, 2, Glyph::Ball, Color::Black));
    assert_eq!(actions[39], put(1, 39, Glyph::Ball, Color::Black));
    assert_eq!(actions[40], put(2, 1, Glyph::Ball, Color::Black));
    assert_eq!(actions[3081], put(79, 39, Glyph::Ball, Color::Black));
}

#[test]
fn walls_are_painted_in_red_around_the_arena() {
    let game = GameState::new(80, 40).unwrap();
    let actions = game.draw_walls();
    assert_eq!(actions.len(), 236);
    assert_eq!(actions[0], put(1, 1, Glyph::TopLeftCorner, Color::Red));
    assert_eq!(actions[1], put(2, 1, Glyph::HorizontalWall, Color::Red));
    assert_eq!(actions[78], put(79, 1, Glyph::HorizontalWall, Color::Red));
    assert_eq!(actions[79], put(80, 1, Glyph::TopRightCorner, Color::Red));
    assert_eq!(actions[80], put(1, 2, Glyph::VerticalWall, Color::Red));
    assert_eq!(actions[81], put(80, 2, Glyph::VerticalWall, Color::Red));
    assert_eq!(actions[154], put(1, 39, Glyph::VerticalWall, Color::Red));
    assert_eq!(actions[155], put(80, 39, Glyph::VerticalWall, Color::Red));
    assert_eq!(actions[156], put(1, 40, Glyph::BottomLeftCorner, Color::Red));
    assert_eq!(actions[157], put(2, 40, Glyph::HorizontalWall, Color::Red));
    assert_eq!(actions[234], put(79, 40, Glyph::HorizontalWall, Color::Red));
    assert_eq!(actions[235], put(80, 40, Glyph::BottomRightCorner, Color::Red));
}

#[test]
fn bricks_are_painted_in_the_terminal_colour() {
    let mut game = GameState::new(80, 40).unwrap();
    game.bricks[2].broken = true;
    let actions = game.draw_bricks();
    assert_eq!(actions.len(), 117);
    assert_eq!(actions[0], put(3, 3, Glyph::Brick, Color::Default));
    assert_eq!(actions[2], put(15, 3, Glyph::Brick, Color::Black));
    assert_eq!(actions[116], put(75, 19, Glyph::Brick, Color::Default));
}

#[test]
fn every_action_of_a_session_can_be_encoded() {
    let mut game = GameState::new(80, 40).unwrap();
    let mut actions = GameState::open_screen();
    actions.extend(game.draw_canvas());
    actions.extend(game.draw_walls());
    actions.extend(game.draw_bricks());
    actions.extend(game.start());
    for round in 0..400u32 {
        let key = match round % 5 {
            0 => Some(b'h'),
            1 => Some(b'k'),
            _ => None,
        };
        actions.extend(game.tick(key));
    }
    actions.extend(game.tick(Some(b'q')));
    for action in actions {
        assert!(action.is_valid());
        assert!(action.encode().is_some());
    }
}

#[test]
fn long_session_keeps_ball_paddle_and_bricks_in_order() {
    let mut game = GameState::new(80, 40).unwrap();
    let mut seed: u32 = 2463534242;
    let mut broken = 0usize;
    let mut misses = 0usize;
    for _ in 0..20_000 {
        seed ^= seed << 13;
        seed ^= seed >> 17;
        seed ^= seed << 5;
        let key = match seed % 7 {
            0 | 1 => Some(b'h'),
            2 | 3 => Some(b'k'),
            4 => Some((seed >> 8) as u8).filter(|k| *k != b'q'),
            _ => None,
        };
        let before: Vec<bool> = game.bricks.iter().map(|b| b.broken).collect();
        let actions = game.tick(key);
        assert!(game.is_wf());
        assert!(game.running);
        assert!(2 <= game.ball.position.x && game.ball.position.x <= 79);
        assert!(2 <= game.ball.position.y && game.ball.position.y <= 39);
        assert!(game.ball.position.y < 36);
        assert!(2 <= game.paddle.position.x && game.paddle.position.x <= 69);
        assert_eq!(game.paddle.position.y, 36);
        assert_eq!(game.bricks.len(), 117);
        let mut newly = 0usize;
        for (brick, was_broken) in game.bricks.iter().zip(before.iter()) {
            assert!(brick.broken || !*was_broken);
            if brick.broken && !*was_broken {
                newly += 1;
            }
        }
        assert!(newly <= 1);
        broken += newly;
        if actions.contains(&Action::Pause(2000)) {
            misses += 1;
        }
        assert_eq!(actions.last(), Some(&Action::Pause(50)));
    }
    assert_eq!(broken, game.bricks.iter().filter(|b| b.broken).count());
    assert!(broken > 0);
    assert!(misses + broken > 0);
}
