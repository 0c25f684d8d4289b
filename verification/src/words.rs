use vstd::prelude::*;
use vstd::string::StrSliceExecFns;
use crate::text::{lines, lowercase_of, str_equal, to_lowercase, trim, trimmed, lines_of};

verus! {

/// The word that a line of a word file gives: the line trimmed and put in
/// lowercase.
pub open spec fn word_of_line(line: Seq<char>) -> Seq<char> {
    lowercase_of(trimmed(line))
}

/// The words of a list of lines: the word of each line, in order, kept when
/// it has five letters.
pub open spec fn words_of_lines(lines: Seq<Seq<char>>) -> Seq<Seq<char>>
    decreases lines.len(),
{
    if lines.len() == 0 {
        Seq::empty()
    } else {
        let rest = words_of_lines(lines.drop_last());
        let w = word_of_line(lines.last());
        if w.len() == 5 {
            rest.push(w)
        } else {
            rest
        }
    }
}

/// Every word of a list of lines has exactly five letters, and is the word
/// of one of the lines: the line trimmed and put in lowercase.
pub proof fn law_words_have_five_letters(lines: Seq<Seq<char>>)
    ensures
        forall|i: int|
            0 <= i < words_of_lines(lines).len() ==> (#[trigger] words_of_lines(lines)[i]).len()
                == 5,
        forall|i: int|
            0 <= i < words_of_lines(lines).len() ==> exists|j: int|
                0 <= j < lines.len() && #[trigger] words_of_lines(lines)[i] == lowercase_of(
                    trimmed(lines[j]),
                ),
    decreases lines.len(),
{
    if lines.len() > 0 {
        let prev = lines.drop_last();
        law_words_have_five_letters(prev);
        let rest = words_of_lines(prev);
        assert forall|i: int|
            0 <= i < words_of_lines(lines).len() implies exists|j: int|
                0 <= j < lines.len() && #[trigger] words_of_lines(lines)[i] == lowercase_of(
                    trimmed(lines[j]),
                ) by {
            if i < rest.len() {
                let j = choose|j: int|
                    0 <= j < prev.len() && #[trigger] rest[i] == lowercase_of(trimmed(prev[j]));
                assert(lines[j] == prev[j]);
            } else {
                assert(words_of_lines(lines)[i] == lowercase_of(trimmed(lines[lines.len() - 1])));
            }
        }
    }
}

/// The words of a word file's text.
pub open spec fn words_of_text(text: Seq<char>) -> Seq<Seq<char>> {
    words_of_lines(lines_of(text))
}

/// The words of the word file for language `lang`: the Slovak file `sk` for
/// `"sk"`, the English file `en` for any other language. A word is a line,
/// trimmed and in lowercase, that has five letters.
pub fn load_words(lang: &str, en: &str, sk: &str) -> (words: Vec<String>)
    ensures
        words@.map_values(|w: String| w@) == words_of_text(
            if lang@ == "sk"@ {
                sk@
            } else {
                en@
            },
        ),
        forall|i: int| 0 <= i < words@.len() ==> (#[trigger] words@[i])@.len() == 5,
{
    let text = if str_equal(lang, "sk") {
        sk
    } else {
        en
    };
    parse_words(text)
}

/// The words of a word file's text: each line, trimmed and in lowercase,
/// that has five letters.
pub fn parse_words(text: &str) -> (words: Vec<String>)
    ensures
        words@.map_values(|w: String| w@) == words_of_text(text@),
        forall|i: int| 0 <= i < words@.len() ==> (#[trigger] words@[i])@.len() == 5,
{
    let ls = lines(text);
    let ghost lv = ls@.map_values(|l: &str| l@);
    let mut words: Vec<String> = Vec::new();
    let mut i: usize = 0;
    while i < ls.len()
        invariant
            0 <= i <= ls@.len(),
            lv == ls@.map_values(|l: &str| l@),
            words@.map_values(|w: String| w@) == words_of_lines(lv.subrange(0, i as int)),
        decreases ls@.len() - i,
    {
        let line = ls[i];
        let t = trim(line);
        let lower = to_lowercase(t);
        assert(lv.subrange(0, i + 1).drop_last() =~= lv.subrange(0, i as int));
        if lower.as_str().unicode_len() == 5 {
            words.push(lower);
        }
        i += 1;
        assert(words@.map_values(|w: String| w@) =~= words_of_lines(lv.subrange(0, i as int)));
    }
    assert(lv.subrange(0, ls@.len() as int) =~= lv);
    proof {
        law_words_have_five_letters(lv);
        assert forall|k: int| 0 <= k < words@.len() implies (#[trigger] words@[k])@.len() == 5 by {
            assert(words@.map_values(|w: String| w@)[k] == words@[k]@);
        }
    }
    words
}

} // verus!
