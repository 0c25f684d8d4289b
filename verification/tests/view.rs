use wordle_tui::app::Screen;
use wordle_tui::game::Game;
use wordle_tui::letter::LetterState::{Absent, Correct, Present, Unknown};
use wordle_tui::view::{
    centered_start, get_border_color, get_tile_letter_style, overlay_for, get_letter_color, get_letter_style, key_colors, key_origin,
    overlay_title, shake_offset, shifted_x, tile_content, tile_letter, tile_state, Color,
    TileContent,
};

#[test]
fn colors_follow_states() {
    assert_eq!(get_letter_color(Correct), Color::Green);
    assert_eq!(get_letter_color(Present), Color::Yellow);
    assert_eq!(get_letter_color(Absent), Color::DarkGray);
    assert_eq!(get_letter_color(Unknown), Color::Reset);
    assert_eq!(get_border_color(Correct, true), Color::White);
    assert_eq!(get_border_color(Unknown, false), Color::DarkGray);
    assert_eq!(get_letter_style(Present).fg, Some(Color::Black));
    assert!(get_letter_style(Correct).bold);
    assert_eq!(get_letter_style(Unknown).bg, None);
    assert!(get_letter_style(Unknown).dim);
    assert!(get_letter_style(Absent).dim);
    assert!(!get_letter_style(Correct).dim);
    let active = get_tile_letter_style(Unknown, true);
    assert!(active.bold && !active.dim);
    assert_eq!(get_tile_letter_style(Absent, false), get_letter_style(Absent));
    assert_eq!(key_colors(Unknown), (Color::Reset, Color::Reset, Color::White));
    assert_eq!(key_colors(Present), (Color::Yellow, Color::Yellow, Color::Black));
}

#[test]
fn shake_steps() {
    assert_eq!(shake_offset(0), -1);
    assert_eq!(shake_offset(50), 0);
    assert_eq!(shake_offset(100), 1);
    assert_eq!(shake_offset(150), -1);
    assert_eq!(shake_offset(299), 1);
    assert_eq!(shake_offset(300), 0);
    assert_eq!(shifted_x(0, -1), 0);
    assert_eq!(shifted_x(10, -1), 9);
    assert_eq!(shifted_x(10, 1), 11);
}

#[test]
fn layout() {
    assert_eq!(centered_start(2, 100, 29), 37);
    assert_eq!(centered_start(2, 10, 29), 2);
    assert_eq!(key_origin(10, 5, 0, 2), (16, 5));
    assert_eq!(key_origin(10, 5, 2, 0), (13, 13));
}

#[test]
fn titles() {
    assert_eq!(overlay_title(1, "YOU WON!"), "GENIUS!");
    assert_eq!(overlay_title(6, "YOU WON!"), "PHEW!");
    assert_eq!(overlay_title(0, "GAME OVER"), "GAME OVER");
    assert_eq!(overlay_title(7, "YOU WON!"), "YOU WON!");
    assert_eq!(overlay_for(Screen::Won, 3), Some(("YOU WON!", 3)));
    assert_eq!(overlay_for(Screen::Lost, 6), Some(("GAME OVER", 0)));
    assert_eq!(overlay_for(Screen::Playing, 2), None);
    assert_eq!(overlay_for(Screen::Quit, 2), None);
}

#[test]
fn grid_cells() {
    let mut g = Game::with_target(vec!["crane".to_string()], ['C', 'R', 'A', 'N', 'E']);
    for c in "crane".chars() {
        g.type_char(c);
    }
    assert_eq!(g.submit(), Ok(()));
    g.status = wordle_tui::game::GameStatus::Playing;
    g.type_char('x');
    assert_eq!(tile_letter(&g, 0, 0), 'C');
    assert_eq!(tile_state(&g, 0, 4), Correct);
    assert_eq!(tile_letter(&g, 1, 0), 'X');
    assert_eq!(tile_letter(&g, 1, 1), ' ');
    assert_eq!(tile_state(&g, 1, 0), Unknown);
    assert_eq!(tile_letter(&g, 2, 0), ' ');
    assert_eq!(tile_content('x', false, false), TileContent::Letter('X'));
    assert_eq!(tile_content(' ', true, true), TileContent::Cursor);
    assert_eq!(tile_content(' ', true, false), TileContent::Blank);
}
