//! What the game asks of the terminal, and how each request is spelled out
//! as the control sequence the terminal understands.

use vstd::prelude::*;

use crate::arena::Position;

verus! {

/// Foreground colours the game paints with. `Black` is the colour of the
/// canvas: a glyph put in black is erased.
#[derive(Clone, Copy, Debug, PartialEq, Eq, Structural)]
pub enum Color {
    Default,
    Black,
    Red,
    Green,
    Blue,
}

/// The shapes the game puts on the screen.
#[derive(Clone, Copy, Debug, PartialEq, Eq, Structural)]
pub enum Glyph {
    Ball,
    Paddle,
    Brick,
    TopLeftCorner,
    TopRightCorner,
    BottomLeftCorner,
    BottomRightCorner,
    VerticalWall,
    HorizontalWall,
    GameOver,
}

/// One glyph in one colour, its first cell at column `x` of row `y`.
#[derive(Clone, Copy, Debug, PartialEq, Eq, Structural)]
pub struct Put {
    pub x: u16,
    pub y: u16,
    pub glyph: Glyph,
    pub color: Color,
}

/// One step the program around the library performs for the game.
#[derive(Clone, Copy, Debug, PartialEq, Eq, Structural)]
pub enum Action {
    /// Write a glyph.
    Draw(Put),
    /// Make black the background of everything written from now on.
    BlackBackground,
    /// Leave the cursor on a cell.
    MoveCursor { x: u16, y: u16 },
    /// Blank the whole screen.
    ClearAll,
    /// Go back to the terminal's own colours and attributes.
    ResetStyle,
    HideCursor,
    ShowCursor,
    /// Send everything written so far to the terminal.
    Flush,
    /// Wait for so many milliseconds.
    Pause(u64),
}

/// The action that writes `glyph` in `color` with its first cell at `p`.
pub open spec fn draw(p: Position, glyph: Glyph, color: Color) -> Action {
    Action::Draw(Put { x: p.x as u16, y: p.y as u16, glyph, color })
}

/// The action that writes `glyph` in `color` with its first cell at `p`.
pub fn paint(p: Position, glyph: Glyph, color: Color) -> (action: Action)
    requires
        p.x >= 1,
        p.y >= 1,
    ensures
        action == draw(p, glyph, color),
        action.valid(),
{
    Action::Draw(Put { x: p.x as u16, y: p.y as u16, glyph, color })
}

/// Every action of the list can be carried out by the terminal.
pub open spec fn all_valid(actions: Seq<Action>) -> bool {
    forall|i: int| 0 <= i < actions.len() ==> (#[trigger] actions[i]).valid()
}

/// The decimal digit `d` as a character.
pub open spec fn digit(d: nat) -> char
    recommends
        d < 10,
{
    (('0' as u8) + d) as u8 as char
}

/// `n` written in decimal, without sign or padding.
pub open spec fn decimal(n: nat) -> Seq<char>
    decreases n,
{
    if n < 10 {
        seq![digit(n)]
    } else {
        decimal(n / 10).push(digit(n % 10))
    }
}

/// The sequence that moves the cursor to column `x` of row `y`: the row
/// comes first.
pub open spec fn goto_text(x: u16, y: u16) -> Seq<char> {
    "\x1b["@ + decimal(y as nat) + ";"@ + decimal(x as nat) + "H"@
}

/// The sequence that selects a foreground colour.
pub open spec fn fg_text(color: Color) -> Seq<char> {
    match color {
        Color::Default => "\x1b[39m"@,
        Color::Black => "\x1b[38;5;0m"@,
        Color::Red => "\x1b[38;5;1m"@,
        Color::Green => "\x1b[38;5;2m"@,
        Color::Blue => "\x1b[38;5;4m"@,
    }
}

impl Glyph {
    /// The characters a glyph is written with.
    pub open spec fn spec_text(&self) -> &'static str {
        match *self {
            Glyph::Ball => "o",
            Glyph::Paddle => "==========",
            Glyph::Brick => "\u{2593}\u{2593}\u{2593}\u{2593}",
            Glyph::TopLeftCorner => "\u{2554}",
            Glyph::TopRightCorner => "\u{2557}",
            Glyph::BottomLeftCorner => "\u{255a}",
            Glyph::BottomRightCorner => "\u{255d}",
            Glyph::VerticalWall => "\u{2551}",
            Glyph::HorizontalWall => "\u{2550}",
            Glyph::GameOver => "GAME OVER",
        }
    }

    /// The characters a glyph is written with.
    #[verifier::when_used_as_spec(spec_text)]
    pub fn text(&self) -> (s: &'static str)
        ensures
            s == self.spec_text(),
    {
        match *self {
            Glyph::Ball => "o",
            Glyph::Paddle => "==========",
            Glyph::Brick => "\u{2593}\u{2593}\u{2593}\u{2593}",
            Glyph::TopLeftCorner => "\u{2554}",
            Glyph::TopRightCorner => "\u{2557}",
            Glyph::BottomLeftCorner => "\u{255a}",
            Glyph::BottomRightCorner => "\u{255d}",
            Glyph::VerticalWall => "\u{2551}",
            Glyph::HorizontalWall => "\u{2550}",
            Glyph::GameOver => "GAME OVER",
        }
    }
}

impl Action {
    /// Whether the terminal can carry the action out: cells are counted
    /// from 1.
    pub open spec fn valid(self) -> bool {
        match self {
            Action::Draw(put) => put.x >= 1 && put.y >= 1,
            Action::MoveCursor { x, y } => x >= 1 && y >= 1,
            _ => true,
        }
    }

    /// What is written to the terminal for the action. Nothing is written
    /// for `Flush` and `Pause`.
    pub open spec fn text(self) -> Seq<char> {
        match self {
            Action::Draw(put) => fg_text(put.color) + goto_text(put.x, put.y) + put.glyph.text()@,
            Action::BlackBackground => "\x1b[48;5;0m"@,
            Action::MoveCursor { x, y } => goto_text(x, y),
            Action::ClearAll => "\x1b[2J"@,
            Action::ResetStyle => "\x1b[m"@,
            Action::HideCursor => "\x1b[?25l"@,
            Action::ShowCursor => "\x1b[?25h"@,
            Action::Flush => Seq::empty(),
            Action::Pause(_) => Seq::empty(),
        }
    }

    /// Whether the terminal can carry the action out.
    pub fn is_valid(&self) -> (r: bool)
        ensures
            r == self.valid(),
    {
        match *self {
            Action::Draw(put) => put.x >= 1 && put.y >= 1,
            Action::MoveCursor { x, y } => x >= 1 && y >= 1,
            _ => true,
        }
    }

    /// The text to write to the terminal for the action, or `None` for an
    /// action that names a cell outside the screen.
    pub fn encode(&self) -> (r: Option<String>)
        ensures
            self.valid() ==> r.is_some() && r.unwrap()@ == self.text(),
            !self.valid() ==> r.is_none(),
    {
        if !self.is_valid() {
            return None;
        }
        match *self {
            Action::Draw(put) => {
                let mut out = String::new();
                out.append(fg_sequence(put.color));
                let goto = goto_sequence(put.x, put.y);
                out.append(goto.as_str());
                out.append(put.glyph.text());
                Some(out)
            },
            Action::BlackBackground => {
                let mut out = String::new();
                out.append(black_bg());
                Some(out)
            },
            Action::MoveCursor { x, y } => Some(goto_sequence(x, y)),
            Action::ClearAll => Some(clear_all_sequence()),
            Action::ResetStyle => Some(reset_style_sequence()),
            Action::HideCursor => Some(hide_cursor_sequence()),
            Action::ShowCursor => Some(show_cursor_sequence()),
            Action::Flush => Some(String::new()),
            Action::Pause(_) => Some(String::new()),
        }
    }
}

/// The sequence that selects `color` as the foreground.
fn fg_sequence(color: Color) -> (s: &'static str)
    ensures
        s@ == fg_text(color),
{
    match color {
        Color::Default => default_fg(),
        Color::Black => black_fg(),
        Color::Red => red_fg(),
        Color::Green => green_fg(),
        Color::Blue => blue_fg(),
    }
}

/// `termion::cursor::Goto` as `Display` writes it: the escape character and
/// `[`, the row in decimal, `;`, the column in decimal, and `H`. Cells are
/// counted from 1; the position (0, 0) is refused by termion's debug
/// assertion.
#[verifier::external_body]
fn goto_sequence(x: u16, y: u16) -> (s: String)
    requires
        x >= 1,
        y >= 1,
    ensures
        s@ == goto_text(x, y),
{
    format!("{}", termion::cursor::Goto(x, y))
}

/// `termion::clear::All` as `Display` writes it: the fixed sequence that
/// clears the entire screen.
#[verifier::external_body]
fn clear_all_sequence() -> (s: String)
    ensures
        s@ == "\x1b[2J"@,
{
    format!("{}", termion::clear::All)
}

/// `termion::style::Reset` as `Display` writes it: the fixed sequence that
/// resets the graphic rendition.
#[verifier::external_body]
fn reset_style_sequence() -> (s: String)
    ensures
        s@ == "\x1b[m"@,
{
    format!("{}", termion::style::Reset)
}

/// `termion::cursor::Hide` as `Display` writes it: the fixed sequence that
/// hides the cursor.
#[verifier::external_body]
fn hide_cursor_sequence() -> (s: String)
    ensures
        s@ == "\x1b[?25l"@,
{
    format!("{}", termion::cursor::Hide)
}

/// `termion::cursor::Show` as `Display` writes it: the fixed sequence that
/// shows the cursor.
#[verifier::external_body]
fn show_cursor_sequence() -> (s: String)
    ensures
        s@ == "\x1b[?25h"@,
{
    format!("{}", termion::cursor::Show)
}

/// `termion::color::Reset::fg_str`: the fixed sequence for the terminal's
/// default foreground.
#[verifier::external_body]
fn default_fg() -> (s: &'static str)
    ensures
        s@ == "\x1b[39m"@,
{
    termion::color::Reset.fg_str()
}

/// `termion::color::Black::fg_str`: the fixed sequence for colour 0 of the
/// palette as foreground.
#[verifier::external_body]
fn black_fg() -> (s: &'static str)
    ensures
        s@ == "\x1b[38;5;0m"@,
{
    termion::color::Black.fg_str()
}

/// `termion::color::Red::fg_str`: the fixed sequence for colour 1 of the
/// palette as foreground.
#[verifier::external_body]
fn red_fg() -> (s: &'static str)
    ensures
        s@ == "\x1b[38;5;1m"@,
{
    termion::color::Red.fg_str()
}

/// `termion::color::Green::fg_str`: the fixed sequence for colour 2 of the
/// palette as foreground.
#[verifier::external_body]
fn green_fg() -> (s: &'static str)
    ensures
        s@ == "\x1b[38;5;2m"@,
{
    termion::color::Green.fg_str()
}

/// `termion::color::Blue::fg_str`: the fixed sequence for colour 4 of the
/// palette as foreground.
#[verifier::external_body]
fn blue_fg() -> (s: &'static str)
    ensures
        s@ == "\x1b[38;5;4m"@,
{
    termion::color::Blue.fg_str()
}

/// `termion::color::Black::bg_str`: the fixed sequence for colour 0 of the
/// palette as background.
#[verifier::external_body]
fn black_bg() -> (s: &'static str)
    ensures
        s@ == "\x1b[48;5;0m"@,
{
    termion::color::Black.bg_str()
}

} // verus!
