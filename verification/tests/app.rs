use std::time::Instant;
use wordle_tui::app::{App, Screen};
use wordle_tui::game::GameStatus;

fn words(list: &[&str]) -> Vec<String> {
    list.iter().map(|s| s.to_string()).collect()
}

fn app_with_target(target: &str, list: &[&str]) -> App {
    let mut app = App::new(words(list));
    let t: Vec<char> = target.chars().collect();
    app.game.target = [t[0], t[1], t[2], t[3], t[4]];
    app
}

fn type_word(app: &mut App, s: &str) {
    for c in s.chars() {
        app.type_char(c);
    }
}

#[test]
fn new_app_is_playing() {
    let app = App::new(words(&["crane"]));
    assert_eq!(app.screen, Screen::Playing);
    assert!(!app.is_done());
    assert_eq!(app.game.get_target_word(), "CRANE");
    assert!(app.msg.is_none() && app.shake.is_none() && app.msg_time.is_none());
    assert!(!app.cursor_blink);
}

#[test]
fn try_new_checks_the_word_list() {
    assert!(App::try_new(vec![]).is_none());
    assert!(App::try_new(words(&["cat"])).is_none());
    assert!(App::try_new(words(&["crane"])).is_some());
}

#[test]
fn refused_guess_shows_message_and_shakes() {
    let mut app = app_with_target("CRANE", &["crane"]);
    type_word(&mut app, "cr");
    app.submit();
    assert_eq!(app.msg.as_deref(), Some("Not enough letters"));
    assert!(app.shake.is_some());
    assert!(app.msg_time.is_some());
    assert_eq!(app.screen, Screen::Playing);
}

#[test]
fn winning_moves_to_won_screen_and_freezes_input() {
    let mut app = app_with_target("CRANE", &["crane"]);
    type_word(&mut app, "crane");
    app.submit();
    assert_eq!(app.screen, Screen::Won);
    assert_eq!(app.game.status, GameStatus::Won);
    assert!(app.is_done());
    app.type_char('x');
    assert!(app.game.current.is_empty());
    app.submit();
    assert_eq!(app.game.guesses.len(), 1);
}

#[test]
fn losing_moves_to_lost_screen() {
    let mut app = app_with_target("CRANE", &["crane", "moist"]);
    for _ in 0..6 {
        type_word(&mut app, "moist");
        app.submit();
    }
    assert_eq!(app.screen, Screen::Lost);
    assert!(app.is_done());
}

#[test]
fn new_game_resets() {
    let mut app = app_with_target("CRANE", &["crane"]);
    type_word(&mut app, "cr");
    app.submit();
    app.new_game();
    assert_eq!(app.screen, Screen::Playing);
    assert!(app.msg.is_none() && app.shake.is_none());
    assert!(app.game.current.is_empty() && app.game.guesses.is_empty());
}

#[test]
fn quit_and_backspace() {
    let mut app = app_with_target("CRANE", &["crane"]);
    type_word(&mut app, "cra");
    app.backspace();
    assert_eq!(app.game.current, vec!['C', 'R']);
    app.quit();
    assert_eq!(app.screen, Screen::Quit);
    assert!(app.is_done());
    app.backspace();
    assert_eq!(app.game.current, vec!['C', 'R']);
}

#[test]
fn tick_at_timing_rules() {
    let mut app = app_with_target("CRANE", &["crane"]);
    type_word(&mut app, "cr");
    app.submit();
    let now = Instant::now();
    app.tick_at(now, 499, 1500, 299);
    assert!(!app.cursor_blink);
    assert!(app.msg.is_some());
    assert!(app.shake.is_some());
    app.tick_at(now, 500, 1501, 300);
    assert!(app.cursor_blink);
    assert_eq!(app.last_tick, now);
    assert!(app.msg.is_none() && app.msg_time.is_none());
    assert!(app.shake.is_none());
    app.tick_at(now, 500, 0, 0);
    assert!(!app.cursor_blink);
}

#[test]
fn tick_keeps_fresh_message() {
    let mut app = app_with_target("CRANE", &["crane"]);
    type_word(&mut app, "cr");
    app.submit();
    app.tick();
    assert!(app.msg.is_some());
}

#[test]
fn try_new_game_needs_a_playable_list() {
    let mut app = app_with_target("CRANE", &["crane"]);
    type_word(&mut app, "cr");
    assert!(app.try_new_game());
    assert!(app.game.current.is_empty());
    app.words.push("cat".to_string());
    type_word(&mut app, "cr");
    assert!(!app.try_new_game());
    assert_eq!(app.game.current, vec!['C', 'R']);
}
