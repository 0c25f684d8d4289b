use wordle_tui::words::{load_words, parse_words};

#[test]
fn keeps_trimmed_lowercase_five_letter_lines() {
    let text = "Crane\n  moist  \r\ncat\n\nABCDEF\nhello";
    assert_eq!(parse_words(text), vec!["crane", "moist", "hello"]);
}

#[test]
fn length_is_counted_in_letters() {
    // "kôň" takes five bytes but has three letters; "ďateľ" has five letters.
    assert_eq!(parse_words("čaj\nkôň\nmesto\nĎateľ"), vec!["mesto", "ďateľ"]);
}

#[test]
fn carriage_return_alone_is_kept() {
    // Only a carriage return before a newline ends a line; trimming removes it here.
    assert_eq!(parse_words("crane\r"), vec!["crane"]);
    assert_eq!(parse_words("\u{3000}crane\u{a0}\n"), vec!["crane"]);
}

#[test]
fn language_picks_the_file() {
    let en = "crane\n";
    let sk = "mesto\n";
    assert_eq!(load_words("sk", en, sk), vec!["mesto"]);
    assert_eq!(load_words("en", en, sk), vec!["crane"]);
    assert_eq!(load_words("de", en, sk), vec!["crane"]);
    assert_eq!(load_words("SK", en, sk), vec!["crane"]);
}

#[test]
fn empty_text_has_no_words() {
    assert!(parse_words("").is_empty());
}
