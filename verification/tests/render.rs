use brickout::arena::Position;
use brickout::render::paint;
use brickout::render::Action;
use brickout::render::Color;
use brickout::render::Glyph;
use brickout::render::Put;

fn text(action: Action) -> String {
    action.encode().unwrap()
}

fn put(x: u16, y: u16, glyph: Glyph, color: Color) -> Action {
    Action::Draw(Put { x, y, glyph, color })
}

#[test]
fn cursor_moves_name_the_row_before_the_column() {
    assert_eq!(text(Action::MoveCursor { x: 85, y: 3 }), "\x1b[3;85H");
    assert_eq!(text(Action::MoveCursor { x: 1, y: 45 }), "\x1b[45;1H");
    assert_eq!(text(Action::MoveCursor { x: 1, y: 1 }), "\x1b[1;1H");
    assert_eq!(text(Action::MoveCursor { x: 65535, y: 10000 }), "\x1b[10000;65535H");
    assert_eq!(text(Action::MoveCursor { x: 100, y: 9 }), "\x1b[9;100H");
}

#[test]
fn screen_actions_are_the_fixed_sequences() {
    assert_eq!(text(Action::ClearAll), "\x1b[2J");
    assert_eq!(text(Action::ResetStyle), "\x1b[m");
    assert_eq!(text(Action::HideCursor), "\x1b[?25l");
    assert_eq!(text(Action::ShowCursor), "\x1b[?25h");
    assert_eq!(text(Action::BlackBackground), "\x1b[48;5;0m");
}

#[test]
fn flush_and_pause_write_nothing() {
    assert_eq!(text(Action::Flush), "");
    assert_eq!(text(Action::Pause(50)), "");
    assert_eq!(text(Action::Pause(0)), "");
}

#[test]
fn draw_selects_the_colour_moves_and_writes_the_glyph() {
    assert_eq!(text(put(40, 35, Glyph::Ball, Color::Green)), "\x1b[38;5;2m\x1b[35;40Ho");
    assert_eq!(text(put(40, 35, Glyph::Ball, Color::Black)), "\x1b[38;5;0m\x1b[35;40Ho");
    assert_eq!(
        text(put(35, 36, Glyph::Paddle, Color::Blue)),
        "\x1b[38;5;4m\x1b[36;35H=========="
    );
    assert_eq!(text(put(1, 1, Glyph::TopLeftCorner, Color::Red)), "\x1b[38;5;1m\x1b[1;1H\u{2554}");
    assert_eq!(
        text(put(3, 3, Glyph::Brick, Color::Default)),
        "\x1b[39m\x1b[3;3H\u{2593}\u{2593}\u{2593}\u{2593}"
    );
    assert_eq!(text(put(85, 3, Glyph::GameOver, Color::Default)), "\x1b[39m\x1b[3;85HGAME OVER");
}

#[test]
fn every_colour_has_its_own_sequence() {
    let colours = [
        (Color::Default, "\x1b[39m"),
        (Color::Black, "\x1b[38;5;0m"),
        (Color::Red, "\x1b[38;5;1m"),
        (Color::Green, "\x1b[38;5;2m"),
        (Color::Blue, "\x1b[38;5;4m"),
    ];
    for (colour, sequence) in colours {
        assert_eq!(text(put(7, 9, Glyph::Ball, colour)), format!("{}\x1b[9;7Ho", sequence));
    }
}

#[test]
fn every_glyph_has_its_text() {
    assert_eq!(Glyph::Ball.text(), "o");
    assert_eq!(Glyph::Paddle.text(), "==========");
    assert_eq!(Glyph::Paddle.text().chars().count(), 10);
    assert_eq!(Glyph::Brick.text(), "\u{2593}\u{2593}\u{2593}\u{2593}");
    assert_eq!(Glyph::TopLeftCorner.text(), "\u{2554}");
    assert_eq!(Glyph::TopRightCorner.text(), "\u{2557}");
    assert_eq!(Glyph::BottomLeftCorner.text(), "\u{255a}");
    assert_eq!(Glyph::BottomRightCorner.text(), "\u{255d}");
    assert_eq!(Glyph::VerticalWall.text(), "\u{2551}");
    assert_eq!(Glyph::HorizontalWall.text(), "\u{2550}");
    assert_eq!(Glyph::GameOver.text(), "GAME OVER");
}

#[test]
fn cells_are_counted_from_one() {
    assert!(put(1, 1, Glyph::Ball, Color::Green).is_valid());
    assert!(!put(0, 1, Glyph::Ball, Color::Green).is_valid());
    assert!(!put(1, 0, Glyph::Ball, Color::Green).is_valid());
    assert!(Action::MoveCursor { x: 1, y: 1 }.is_valid());
    assert!(!Action::MoveCursor { x: 0, y: 0 }.is_valid());
    assert!(Action::Flush.is_valid());
    assert!(Action::Pause(7).is_valid());
}

#[test]
fn an_action_off_the_screen_is_not_encoded() {
    assert_eq!(put(0, 5, Glyph::Ball, Color::Green).encode(), None);
    assert_eq!(put(5, 0, Glyph::Ball, Color::Green).encode(), None);
    assert_eq!(Action::MoveCursor { x: 0, y: 0 }.encode(), None);
    assert_eq!(Action::MoveCursor { x: 0, y: 3 }.encode(), None);
    assert_eq!(Action::MoveCursor { x: 3, y: 0 }.encode(), None);
}

#[test]
fn paint_puts_the_glyph_on_the_cell() {
    assert_eq!(
        paint(Position { x: 12, y: 7 }, Glyph::Brick, Color::Black),
        put(12, 7, Glyph::Brick, Color::Black)
    );
}
