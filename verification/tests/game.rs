use wordle_tui::game::{all_playable, Game, GameStatus};
use wordle_tui::letter::LetterState::{Absent, Correct, Present, Unknown};

fn words(list: &[&str]) -> Vec<String> {
    list.iter().map(|s| s.to_string()).collect()
}

fn game(target: &str, list: &[&str]) -> Game {
    let t: Vec<char> = target.chars().collect();
    Game::with_target(words(list), [t[0], t[1], t[2], t[3], t[4]])
}

fn type_word(g: &mut Game, s: &str) {
    for c in s.chars() {
        g.type_char(c);
    }
}

#[test]
fn new_game_has_unknown_keyboard() {
    let g = game("CRANE", &["crane"]);
    assert_eq!(g.keyboard.len(), 26);
    for c in 'A'..='Z' {
        assert_eq!(g.keyboard.get(&(c as u32)), Some(&Unknown));
    }
    assert_eq!(g.status, GameStatus::Playing);
    assert!(g.guesses.is_empty());
}

#[test]
fn typing_uppercases_and_stops_at_five() {
    let mut g = game("CRANE", &["crane"]);
    type_word(&mut g, "abcdefg");
    assert_eq!(g.current, vec!['A', 'B', 'C', 'D', 'E']);
    g.type_char('1');
    assert_eq!(g.current.len(), 5);
}

#[test]
fn non_letters_are_kept_as_they_are() {
    let mut g = game("CRANE", &["crane"]);
    g.type_char('1');
    g.type_char('é');
    assert_eq!(g.current, vec!['1', 'é']);
}

#[test]
fn backspace_undoes_typing() {
    let mut g = game("CRANE", &["crane"]);
    type_word(&mut g, "ab");
    g.type_char('x');
    g.backspace();
    assert_eq!(g.current, vec!['A', 'B']);
    g.backspace();
    g.backspace();
    g.backspace();
    assert!(g.current.is_empty());
}

#[test]
fn short_guess_is_refused() {
    let mut g = game("CRANE", &["crane"]);
    type_word(&mut g, "cra");
    assert_eq!(g.submit(), Err("Not enough letters".to_string()));
    assert_eq!(g.current.len(), 3);
    assert!(g.guesses.is_empty());
}

#[test]
fn unknown_word_is_refused() {
    let mut g = game("CRANE", &["crane"]);
    type_word(&mut g, "zzzzz");
    assert_eq!(g.submit(), Err("Not in word list".to_string()));
    assert_eq!(g.current.len(), 5);
    assert!(g.guesses.is_empty());
}

#[test]
fn word_list_is_looked_up_in_lowercase() {
    let mut g = game("CRANE", &["CRANE"]);
    type_word(&mut g, "crane");
    assert_eq!(g.submit(), Err("Not in word list".to_string()));
}

#[test]
fn winning_guess() {
    let mut g = game("CRANE", &["crane", "nacre"]);
    type_word(&mut g, "crane");
    assert_eq!(g.submit(), Ok(()));
    assert_eq!(g.status, GameStatus::Won);
    assert_eq!(g.guesses.len(), 1);
    assert_eq!(g.guesses[0].states, [Correct; 5]);
    assert!(g.current.is_empty());
    // A finished game takes no typing.
    g.type_char('a');
    assert!(g.current.is_empty());
}

#[test]
fn keyboard_hints_only_rise() {
    let mut g = game("CRANE", &["crane", "nacre", "moist"]);
    type_word(&mut g, "nacre");
    assert_eq!(g.submit(), Ok(()));
    assert_eq!(g.keyboard[&('E' as u32)], Correct);
    assert_eq!(g.keyboard[&('N' as u32)], Present);
    type_word(&mut g, "moist");
    assert_eq!(g.submit(), Ok(()));
    assert_eq!(g.keyboard[&('M' as u32)], Absent);
    assert_eq!(g.keyboard[&('N' as u32)], Present);
    type_word(&mut g, "crane");
    assert_eq!(g.submit(), Ok(()));
    assert_eq!(g.keyboard[&('N' as u32)], Correct);
    assert_eq!(g.status, GameStatus::Won);
}

#[test]
fn sixth_wrong_guess_loses() {
    let mut g = game("CRANE", &["crane", "moist"]);
    for i in 0..6 {
        assert_eq!(g.status, GameStatus::Playing);
        type_word(&mut g, "moist");
        assert_eq!(g.submit(), Ok(()));
        assert_eq!(g.guesses.len(), i + 1);
    }
    assert_eq!(g.status, GameStatus::Lost);
    assert_eq!(g.get_target_word(), "CRANE");
}

#[test]
fn submit_word_checks_the_given_lowercase_word() {
    let mut g = game("CRANE", &["crane"]);
    type_word(&mut g, "zzzzz");
    assert_eq!(g.submit_word(&"crane".to_string()), Ok(()));
    assert_eq!(g.guesses[0].letters, ['Z'; 5]);
    assert_eq!(g.guesses[0].states, [Absent; 5]);
}

#[test]
fn new_game_targets_a_word_in_uppercase() {
    let list = words(&["crane", "moist"]);
    for _ in 0..20 {
        let g = Game::new(list.clone());
        let t = g.get_target_word();
        assert!(t == "CRANE" || t == "MOIST");
        assert_eq!(g.word_list, list);
    }
}

#[test]
fn try_new_refuses_unplayable_lists() {
    assert!(Game::try_new(vec![]).is_none());
    assert!(Game::try_new(words(&["crane", "cat"])).is_none());
    // Uppercasing the sharp s gives two letters.
    assert!(Game::try_new(words(&["straße"])).is_none());
    assert!(!all_playable(&words(&["abcdef"])));
    assert!(Game::try_new(words(&["crane"])).is_some());
    assert!(all_playable(&words(&["crane", "moist"])));
}
