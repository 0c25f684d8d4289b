use wordle_tui::letter::LetterState;
use wordle_tui::letter::LetterState::{Absent, Correct, Present, Unknown};
use wordle_tui::scoring::score_guess;

fn w(s: &str) -> [char; 5] {
    let v: Vec<char> = s.chars().collect();
    [v[0], v[1], v[2], v[3], v[4]]
}

#[test]
fn exact_guess_is_all_correct() {
    assert_eq!(score_guess(&w("CRANE"), &w("CRANE")), [Correct; 5]);
}

#[test]
fn no_common_letters_is_all_absent() {
    assert_eq!(score_guess(&w("CRANE"), &w("MOIST")), [Absent; 5]);
}

#[test]
fn misplaced_letters_are_present() {
    assert_eq!(
        score_guess(&w("CRANE"), &w("NACRE")),
        [Present, Present, Present, Present, Correct]
    );
}

#[test]
fn duplicate_in_guess_with_single_in_target() {
    // One L in the target: only the first misplaced L is a hint.
    assert_eq!(
        score_guess(&w("ABLER"), &w("LLAMA")),
        [Present, Absent, Present, Absent, Absent]
    );
}

#[test]
fn exact_match_takes_precedence_over_earlier_misplaced_copy() {
    // The second E is exact; the first E finds no copy left.
    assert_eq!(
        score_guess(&w("CRANE"), &w("EERIE")),
        [Absent, Absent, Present, Absent, Correct]
    );
}

#[test]
fn duplicates_in_both() {
    assert_eq!(
        score_guess(&w("SPEED"), &w("EERIE")),
        [Present, Present, Absent, Absent, Absent]
    );
    assert_eq!(
        score_guess(&w("EERIE"), &w("SPEED")),
        [Absent, Absent, Present, Present, Absent]
    );
}

#[test]
fn hints_per_letter_are_the_smaller_count() {
    // Target has two O's, guess has three: exactly two are hinted.
    let states = score_guess(&w("FLOOR"), &w("OOOZE"));
    let hinted = states
        .iter()
        .zip(w("OOOZE").iter())
        .filter(|(s, c)| **c == 'O' && (**s == Correct || **s == Present))
        .count();
    assert_eq!(hinted, 2);
    assert_eq!(states, [Present, Absent, Correct, Absent, Absent]);
}

#[test]
fn states_are_ordered_by_what_they_reveal() {
    assert!(Unknown < Absent);
    assert!(Absent < Present);
    assert!(Present < Correct);
    assert_eq!(Correct.rank(), 3);
    assert_eq!(Unknown.rank(), 0);
    assert_eq!(std::cmp::max(Present, Absent), Present);
    let s: LetterState = Correct;
    assert!(s >= Correct);
}
