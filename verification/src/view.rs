use vstd::prelude::*;
use crate::app::Screen;
use crate::game::Game;
use crate::letter::LetterState;
use crate::text::{ascii_upper, to_ascii_upper};

verus! {

/// Width and height of a tile of the grid.
pub const TILE_SIZE: u16 = 5;

/// Space between two tiles of a row.
pub const TILE_GAP: u16 = 1;

/// Milliseconds between two steps of the shake.
pub const SHAKE_INTERVAL_MS: u128 = 50;

/// Milliseconds that the shake lasts.
pub const SHAKE_DURATION_MS: u128 = 300;

/// Width of the grid: five tiles and four gaps.
pub const GRID_WIDTH: u16 = 29;

/// Height of the grid: six rows of tiles and five rows of space.
pub const GRID_HEIGHT: u16 = 35;

/// Width of the on-screen keyboard: ten keys of three columns.
pub const KEYBOARD_WIDTH: u16 = 30;

/// The colors the screen uses.
#[derive(Clone, Copy, Debug, PartialEq, Eq, Structural)]
pub enum Color {
    Reset,
    Black,
    White,
    DarkGray,
    Green,
    Yellow,
}

/// A text style: foreground, background (none keeps the terminal's), bold,
/// dim.
#[derive(Clone, Copy, Debug, PartialEq, Eq, Structural)]
pub struct TextStyle {
    pub fg: Option<Color>,
    pub bg: Option<Color>,
    pub bold: bool,
    pub dim: bool,
}

/// What a tile shows.
#[derive(Clone, Copy, Debug, PartialEq, Eq, Structural)]
pub enum TileContent {
    /// A letter, in uppercase.
    Letter(char),
    /// The blinking cursor of the active row.
    Cursor,
    /// Nothing.
    Blank,
}

/// The color that stands for a letter state: green for `Correct`, yellow
/// for `Present`, dark gray for `Absent`, the terminal's own for `Unknown`.
pub open spec fn state_color(state: LetterState) -> Color {
    match state {
        LetterState::Correct => Color::Green,
        LetterState::Present => Color::Yellow,
        LetterState::Absent => Color::DarkGray,
        LetterState::Unknown => Color::Reset,
    }
}

/// The color that stands for a letter state.
pub fn get_letter_color(state: LetterState) -> (c: Color)
    ensures
        c == state_color(state),
{
    match state {
        LetterState::Correct => Color::Green,
        LetterState::Present => Color::Yellow,
        LetterState::Absent => Color::DarkGray,
        LetterState::Unknown => Color::Reset,
    }
}

/// The style of a tile's letter: black and bold on the state's color for a
/// hint, dim white on dark gray for `Absent`, dim dark gray for `Unknown`.
pub open spec fn letter_style(state: LetterState) -> TextStyle {
    match state {
        LetterState::Correct | LetterState::Present => TextStyle {
            fg: Some(Color::Black),
            bg: Some(state_color(state)),
            bold: true,
            dim: false,
        },
        LetterState::Absent => TextStyle {
            fg: Some(Color::White),
            bg: Some(state_color(state)),
            bold: false,
            dim: true,
        },
        LetterState::Unknown => TextStyle {
            fg: Some(Color::DarkGray),
            bg: None,
            bold: false,
            dim: true,
        },
    }
}

/// The style of a tile's letter, as `letter_style` gives it.
pub fn get_letter_style(state: LetterState) -> (s: TextStyle)
    ensures
        s == letter_style(state),
{
    match state {
        LetterState::Correct | LetterState::Present => TextStyle {
            fg: Some(Color::Black),
            bg: Some(get_letter_color(state)),
            bold: true,
            dim: false,
        },
        LetterState::Absent => TextStyle {
            fg: Some(Color::White),
            bg: Some(get_letter_color(state)),
            bold: false,
            dim: true,
        },
        LetterState::Unknown => TextStyle {
            fg: Some(Color::DarkGray),
            bg: None,
            bold: false,
            dim: true,
        },
    }
}

/// The style of the letter of a tile: on the active row, the row being
/// typed, the letter is bold and not dim; elsewhere it takes the style of
/// its state.
pub fn get_tile_letter_style(state: LetterState, active: bool) -> (s: TextStyle)
    ensures
        s == if active {
            TextStyle { bold: true, dim: false, ..letter_style(state) }
        } else {
            letter_style(state)
        },
{
    let base = get_letter_style(state);
    if active {
        TextStyle { fg: base.fg, bg: base.bg, bold: true, dim: false }
    } else {
        base
    }
}

/// The border color of a tile: white on the active row, otherwise the
/// state's color, with dark gray for `Unknown`.
pub fn get_border_color(state: LetterState, active: bool) -> (c: Color)
    ensures
        c == if active {
            Color::White
        } else {
            match state {
                LetterState::Correct => Color::Green,
                LetterState::Present => Color::Yellow,
                _ => Color::DarkGray,
            }
        },
{
    if active {
        return Color::White;
    }
    match state {
        LetterState::Correct => Color::Green,
        LetterState::Present => Color::Yellow,
        LetterState::Absent => Color::DarkGray,
        LetterState::Unknown => Color::DarkGray,
    }
}

/// What a tile holding `letter` shows: the letter in uppercase unless it is
/// a space; for a space, the cursor on the active row while it is shown.
pub fn tile_content(letter: char, active: bool, show_cursor: bool) -> (t: TileContent)
    ensures
        t == if letter != ' ' {
            TileContent::Letter(ascii_upper(letter))
        } else if active && show_cursor {
            TileContent::Cursor
        } else {
            TileContent::Blank
        },
{
    if letter != ' ' {
        TileContent::Letter(to_ascii_upper(letter))
    } else if active && show_cursor {
        TileContent::Cursor
    } else {
        TileContent::Blank
    }
}

/// The letter that the grid shows at `row`, `col`: the letter of a played
/// guess, a typed letter on the row being typed, a space elsewhere.
pub open spec fn grid_letter(g: Game, row: int, col: int) -> char {
    if row < g.guesses@.len() {
        g.guesses@[row].letters@[col]
    } else if row == g.guesses@.len() && col < g.current@.len() {
        g.current@[col]
    } else {
        ' '
    }
}

/// The state that the grid shows at `row`, `col`: that of a played guess,
/// `Unknown` elsewhere.
pub open spec fn grid_state(g: Game, row: int, col: int) -> LetterState {
    if row < g.guesses@.len() {
        g.guesses@[row].states@[col]
    } else {
        LetterState::Unknown
    }
}

/// The letter that the grid shows at `row`, `col`.
pub fn tile_letter(game: &Game, row: usize, col: usize) -> (c: char)
    requires
        col < 5,
    ensures
        c == grid_letter(*game, row as int, col as int),
{
    if row < game.guesses.len() {
        game.guesses[row].letters[col]
    } else if row == game.guesses.len() && col < game.current.len() {
        game.current[col]
    } else {
        ' '
    }
}

/// The state that the grid shows at `row`, `col`.
pub fn tile_state(game: &Game, row: usize, col: usize) -> (s: LetterState)
    requires
        col < 5,
    ensures
        s == grid_state(*game, row as int, col as int),
{
    if row < game.guesses.len() {
        game.guesses[row].states[col]
    } else {
        LetterState::Unknown
    }
}

/// The horizontal offset of the grid `elapsed` milliseconds into a shake:
/// it steps through -1, 0, 1 every `SHAKE_INTERVAL_MS` while the shake
/// lasts, and is 0 afterwards.
pub fn shake_offset(elapsed: u128) -> (o: i32)
    ensures
        o == if elapsed < SHAKE_DURATION_MS {
            ((elapsed / SHAKE_INTERVAL_MS) % 3) - 1
        } else {
            0
        },
        -1 <= o <= 1,
{
    if elapsed < SHAKE_DURATION_MS {
        let step: u128 = (elapsed / SHAKE_INTERVAL_MS) % 3;
        step as i32 - 1
    } else {
        0
    }
}

/// The column `x` moved by `offset`, stopping at 0, as a screen column.
pub fn shifted_x(x: u16, offset: i32) -> (r: u16)
    requires
        -1 <= offset <= 1,
    ensures
        r == if x + offset < 0 {
            0
        } else {
            (x + offset) as u16
        },
{
    let moved: i32 = x as i32 + offset;
    if moved < 0 {
        0
    } else {
        moved as u16
    }
}

/// The start of a span of `size` centred in the `available` cells from
/// `origin`: the span starts at `origin` when it does not fit.
pub fn centered_start(origin: u16, available: u16, size: u16) -> (s: u16)
    requires
        origin + available <= u16::MAX,
    ensures
        s == origin + (if available > size {
            available - size
        } else {
            0
        }) / 2,
{
    let room: u16 = if available > size {
        available - size
    } else {
        0
    };
    origin + room / 2
}

/// The colors of a key of the on-screen keyboard: its border takes the
/// state's color; its background too, except the terminal's own for
/// `Unknown`; its letter is black on yellow and white otherwise.
pub fn key_colors(state: LetterState) -> (c: (Color, Color, Color))
    ensures
        c.0 == state_color(state),
        c.1 == if state != LetterState::Unknown {
            state_color(state)
        } else {
            Color::Reset
        },
        c.2 == if state == LetterState::Present {
            Color::Black
        } else {
            Color::White
        },
{
    let color = get_letter_color(state);
    let bg = if state != LetterState::Unknown {
        color
    } else {
        Color::Reset
    };
    let fg = if state == LetterState::Present {
        Color::Black
    } else {
        Color::White
    };
    (color, bg, fg)
}

/// The title of the end-of-game box for a game won in `guesses` guesses,
/// or `fallback` when the count is not from one to six.
pub open spec fn title_for(guesses: int, fallback: Seq<char>) -> Seq<char> {
    if guesses == 1 {
        "GENIUS!"@
    } else if guesses == 2 {
        "MAGNIFICENT!"@
    } else if guesses == 3 {
        "IMPRESSIVE!"@
    } else if guesses == 4 {
        "SPLENDID!"@
    } else if guesses == 5 {
        "GREAT!"@
    } else if guesses == 6 {
        "PHEW!"@
    } else {
        fallback
    }
}

/// The title of the end-of-game box: a word of praise for a game won in one
/// to six guesses, `fallback` otherwise (the lost screen passes 0).
pub fn overlay_title<'a>(guesses: usize, fallback: &'a str) -> (t: &'a str)
    ensures
        t@ == title_for(guesses as int, fallback@),
{
    if guesses == 1 {
        "GENIUS!"
    } else if guesses == 2 {
        "MAGNIFICENT!"
    } else if guesses == 3 {
        "IMPRESSIVE!"
    } else if guesses == 4 {
        "SPLENDID!"
    } else if guesses == 5 {
        "GREAT!"
    } else if guesses == 6 {
        "PHEW!"
    } else {
        fallback
    }
}

/// The end-of-game box that a screen shows: on the won screen, the title
/// "YOU WON!" with the number of guesses made; on the lost screen, "GAME
/// OVER" with no count; none on the other screens.
pub fn overlay_for(screen: Screen, guesses: usize) -> (r: Option<(&'static str, usize)>)
    ensures
        (r is Some) == (screen == Screen::Won || screen == Screen::Lost),
        screen == Screen::Won ==> (r matches Some((t, n)) && t@ == "YOU WON!"@ && n == guesses),
        screen == Screen::Lost ==> (r matches Some((t, n)) && t@ == "GAME OVER"@ && n == 0),
{
    match screen {
        Screen::Won => Some(("YOU WON!", guesses)),
        Screen::Lost => Some(("GAME OVER", 0)),
        _ => None,
    }
}

/// The top-left corner of key `col` of keyboard row `row`, for a keyboard
/// whose area starts at `x`, `y`: keys are three columns wide, rows four
/// lines apart, and the third row is indented by three columns.
pub fn key_origin(x: u16, y: u16, row: u16, col: u16) -> (p: (u16, u16))
    requires
        x + 3 + col * 3 <= u16::MAX,
        y + row * 4 <= u16::MAX,
    ensures
        p.0 == x + (if row == 2 {
            3int
        } else {
            0int
        }) + col * 3,
        p.1 == y + row * 4,
{
    let x_offset: u16 = if row == 2 {
        3
    } else {
        0
    };
    (x + x_offset + col * 3, y + row * 4)
}

/// The praise for a win, from the fewest guesses to the most.
pub open spec fn praise_ladder() -> Seq<Seq<char>> {
    seq![
        "GENIUS!"@,
        "MAGNIFICENT!"@,
        "IMPRESSIVE!"@,
        "SPLENDID!"@,
        "GREAT!"@,
        "PHEW!"@,
    ]
}

/// A win in `n` guesses, for `n` from one to six, is titled with the `n`-th
/// praise of the ladder GENIUS!, MAGNIFICENT!, IMPRESSIVE!, SPLENDID!,
/// GREAT!, PHEW!; any other count shows the fallback title.
pub proof fn law_title_follows_praise_ladder(n: int, fallback: Seq<char>)
    ensures
        1 <= n <= 6 ==> title_for(n, fallback) == praise_ladder()[n - 1],
        !(1 <= n <= 6) ==> title_for(n, fallback) == fallback,
        title_for(1, fallback) == "GENIUS!"@,
        title_for(2, fallback) == "MAGNIFICENT!"@,
        title_for(3, fallback) == "IMPRESSIVE!"@,
        title_for(4, fallback) == "SPLENDID!"@,
        title_for(5, fallback) == "GREAT!"@,
        title_for(6, fallback) == "PHEW!"@,
{
}

} // verus!
