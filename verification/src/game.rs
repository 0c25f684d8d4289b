use std::collections::HashMap;
use vstd::prelude::*;
use vstd::string::StrSliceExecFns;
use crate::letter::{LetterState, state_rank};
use crate::random::choose_word;
use crate::scoring::{score_guess, score_spec};
use crate::text::{
    ascii_upper, lowercase_of, string_from_chars, to_ascii_upper, to_lowercase, to_uppercase,
    uppercase_of,
};

verus! {

broadcast use vstd::std_specs::hash::group_hash_axioms;

/// The number of letters in a word.
pub const WORD_LEN: usize = 5;

/// The number of guesses a game allows.
pub const MAX_GUESSES: usize = 6;

/// A submitted guess: its letters and the state each of them was given.
#[derive(Clone, Copy)]
pub struct Guess {
    pub letters: [char; 5],
    pub states: [LetterState; 5],
}

/// Whether the game goes on, was won, or was lost.
#[derive(Clone, Copy, Debug, PartialEq, Eq, Structural)]
pub enum GameStatus {
    Playing,
    Won,
    Lost,
}

/// One game of Wordle.
///
/// The keyboard hints are keyed by the code point of the letter
/// (`c as u32`).
pub struct Game {
    pub target: [char; 5],
    pub guesses: Vec<Guess>,
    pub current: Vec<char>,
    pub keyboard: HashMap<u32, LetterState>,
    pub status: GameStatus,
    pub word_list: Vec<String>,
}

/// The key under which the keyboard records the hint for `c`.
pub open spec fn key_of(c: char) -> u32 {
    c as u32
}

/// The keyboard of a new game: every letter `A`..`Z` is `Unknown`.
pub open spec fn initial_keyboard() -> Map<u32, LetterState> {
    Map::new(|k: u32| 65 <= k <= 90, |k: u32| LetterState::Unknown)
}

/// The hint that keyboard `kb` shows for `c` (`Unknown` when it has none).
pub open spec fn shown_hint(kb: Map<u32, LetterState>, c: char) -> LetterState {
    if kb.contains_key(key_of(c)) {
        kb[key_of(c)]
    } else {
        LetterState::Unknown
    }
}

/// The keyboard after recording the first `n` letters of a scored guess:
/// each letter's hint is raised to its state in the guess when that state
/// is more revealing, and never lowered.
pub open spec fn keyboard_after(
    kb: Map<u32, LetterState>,
    letters: Seq<char>,
    states: Seq<LetterState>,
    n: int,
) -> Map<u32, LetterState>
    decreases n,
{
    if n <= 0 {
        kb
    } else {
        let m = keyboard_after(kb, letters, states, n - 1);
        let c = letters[n - 1];
        if state_rank(states[n - 1]) > state_rank(shown_hint(m, c)) {
            m.insert(key_of(c), states[n - 1])
        } else {
            m
        }
    }
}

/// Whether the word list holds `word`.
pub open spec fn in_word_list(words: Seq<String>, word: Seq<char>) -> bool {
    exists|k: int| 0 <= k < words.len() && words[k]@ == word
}

/// Whether every word of `words` gives exactly five letters in uppercase,
/// so that any of them can be the target, and there is at least one.
pub open spec fn playable_words(words: Seq<String>) -> bool {
    &&& words.len() > 0
    &&& forall|i: int| 0 <= i < words.len() ==> #[trigger] uppercase_of(words[i]@).len() == 5
}

/// The status after a guess: won when it is the target, lost when it used
/// up the last guess, otherwise as before.
pub open spec fn status_after(
    status: GameStatus,
    letters: Seq<char>,
    target: Seq<char>,
    guesses_now: nat,
) -> GameStatus {
    if letters == target {
        GameStatus::Won
    } else if guesses_now >= 6 {
        GameStatus::Lost
    } else {
        status
    }
}

/// The result of submitting the current letters as a guess, given that they
/// read `word_lower` in lowercase: the changes to the game that this
/// describes are stated by `submit_word`.
pub open spec fn submit_outcome(g: Game, word_lower: Seq<char>) -> Result<(), Seq<char>> {
    if g.current@.len() != 5 {
        Err("Not enough letters"@)
    } else if !in_word_list(g.word_list@, word_lower) {
        Err("Not in word list"@)
    } else {
        Ok(())
    }
}

/// `after` is `before` with the current letters played as a guess.
pub open spec fn guess_played(before: Game, after: Game) -> bool {
    let letters = before.current@;
    let states = score_spec(before.target@, letters);
    &&& after.target == before.target
    &&& after.word_list == before.word_list
    &&& after.guesses@.len() == before.guesses@.len() + 1
    &&& after.guesses@.subrange(0, before.guesses@.len() as int) == before.guesses@
    &&& after.guesses@.last().letters@ == letters
    &&& after.guesses@.last().states@ == states
    &&& after.keyboard@ == keyboard_after(before.keyboard@, letters, states, 5)
    &&& after.current@.len() == 0
    &&& after.status == status_after(
        before.status,
        letters,
        before.target@,
        after.guesses@.len(),
    )
}

/// The typed letters after typing `c`: it is added in uppercase while the
/// game is on and fewer than five letters are typed.
pub open spec fn after_typing(current: Seq<char>, status: GameStatus, c: char) -> Seq<char> {
    if current.len() < 5 && status == GameStatus::Playing {
        current.push(ascii_upper(c))
    } else {
        current
    }
}

/// The typed letters after a backspace: the last one goes while the game is on.
pub open spec fn after_backspace(current: Seq<char>, status: GameStatus) -> Seq<char> {
    if status == GameStatus::Playing && current.len() > 0 {
        current.drop_last()
    } else {
        current
    }
}

/// What submitting a guess that reads `word_lower` in lowercase does:
/// `r` is the outcome that `submit_outcome` gives, the game is unchanged on
/// an error and has the guess played on success.
pub open spec fn submit_post(
    before: Game,
    after: Game,
    word_lower: Seq<char>,
    r: Result<(), String>,
) -> bool {
    match submit_outcome(before, word_lower) {
        Ok(()) => r is Ok && guess_played(before, after),
        Err(msg) => r matches Err(e) && e@ == msg && after == before,
    }
}

/// The five letters of a five-letter string.
fn target_from_str(s: &str) -> (t: [char; 5])
    requires
        s@.len() == 5,
    ensures
        t@ == s@,
{
    let t = [s.get_char(0), s.get_char(1), s.get_char(2), s.get_char(3), s.get_char(4)];
    assert(t@ =~= s@);
    t
}

/// Whether `playable_words` holds of `words`.
pub fn all_playable(words: &Vec<String>) -> (b: bool)
    ensures
        b == playable_words(words@),
{
    if words.len() == 0 {
        return false;
    }
    let mut i: usize = 0;
    while i < words.len()
        invariant
            0 <= i <= words@.len(),
            forall|j: int| 0 <= j < i ==> #[trigger] uppercase_of(words@[j]@).len() == 5,
        decreases words@.len() - i,
    {
        let upper = to_uppercase(words[i].as_str());
        if upper.as_str().unicode_len() != 5 {
            assert(uppercase_of(words@[i as int]@).len() != 5);
            return false;
        }
        i += 1;
    }
    true
}

impl Game {
    /// A new game whose target is a word of `words`, picked at random and
    /// put in uppercase.
    pub fn new(words: Vec<String>) -> (g: Game)
        requires
            playable_words(words@),
        ensures
            exists|i: int|
                0 <= i < words@.len() && g.target@ == uppercase_of(#[trigger] words@[i]@),
            g.word_list == words,
            g.guesses@.len() == 0,
            g.current@.len() == 0,
            g.keyboard@ == initial_keyboard(),
            g.status == GameStatus::Playing,
    {
        let target: [char; 5] = match choose_word(&words) {
            Some(w) => {
                let ghost i = choose|i: int| 0 <= i < words@.len() && words@[i] == *w;
                assert(uppercase_of(words@[i]@).len() == 5);
                let upper = to_uppercase(w.as_str());
                target_from_str(upper.as_str())
            },
            None => {
                proof {
                    assert(false);
                }
                [' ', ' ', ' ', ' ', ' ']
            },
        };
        Game::with_target(words, target)
    }

    /// A new game as `new` makes it, or `None` when `words` is empty or
    /// holds a word that does not give five letters in uppercase.
    pub fn try_new(words: Vec<String>) -> (r: Option<Game>)
        ensures
            r is Some <==> playable_words(words@),
            r matches Some(g) ==> {
                &&& exists|i: int|
                    0 <= i < words@.len() && g.target@ == uppercase_of(#[trigger] words@[i]@)
                &&& g.word_list == words
                &&& g.guesses@.len() == 0
                &&& g.current@.len() == 0
                &&& g.keyboard@ == initial_keyboard()
                &&& g.status == GameStatus::Playing
            },
    {
        if all_playable(&words) {
            Some(Game::new(words))
        } else {
            None
        }
    }

    /// The keyboard of a new game, with every letter `A`..`Z` `Unknown`.
    fn init_keyboard() -> (kb: HashMap<u32, LetterState>)
        ensures
            kb@ == initial_keyboard(),
    {
        let mut keyboard: HashMap<u32, LetterState> = HashMap::new();
        let mut c: u32 = 65;
        while c <= 90
            invariant
                65 <= c <= 91,
                keyboard@ == Map::new(|k: u32| 65 <= k < c, |k: u32| LetterState::Unknown),
            decreases 91 - c,
        {
            keyboard.insert(c, LetterState::Unknown);
            c += 1;
            assert(keyboard@ =~= Map::new(|k: u32| 65 <= k < c, |k: u32| LetterState::Unknown));
        }
        assert(keyboard@ =~= initial_keyboard());
        keyboard
    }

    /// A new game with the given target and word list.
    pub fn with_target(words: Vec<String>, target: [char; 5]) -> (g: Game)
        ensures
            g.target == target,
            g.word_list == words,
            g.guesses@.len() == 0,
            g.current@.len() == 0,
            g.keyboard@ == initial_keyboard(),
            g.status == GameStatus::Playing,
    {
        Game {
            target,
            guesses: Vec::new(),
            current: Vec::new(),
            keyboard: Self::init_keyboard(),
            status: GameStatus::Playing,
            word_list: words,
        }
    }

    /// Adds a typed letter, in uppercase, while the game is on and fewer
    /// than five letters are typed; otherwise does nothing.
    pub fn type_char(&mut self, c: char)
        ensures
            final(self).target == old(self).target,
            final(self).guesses == old(self).guesses,
            final(self).keyboard == old(self).keyboard,
            final(self).status == old(self).status,
            final(self).word_list == old(self).word_list,
            final(self).current@ == after_typing(old(self).current@, old(self).status, c),
    {
        if self.current.len() < WORD_LEN && self.status == GameStatus::Playing {
            self.current.push(to_ascii_upper(c));
        }
    }

    /// Removes the last typed letter while the game is on.
    pub fn backspace(&mut self)
        ensures
            final(self).target == old(self).target,
            final(self).guesses == old(self).guesses,
            final(self).keyboard == old(self).keyboard,
            final(self).status == old(self).status,
            final(self).word_list == old(self).word_list,
            final(self).current@ == after_backspace(old(self).current@, old(self).status),
    {
        if self.status == GameStatus::Playing {
            self.current.pop();
        }
    }

    /// The target word as a string.
    pub fn get_target_word(&self) -> (s: String)
        ensures
            s@ == self.target@,
    {
        string_from_chars(&self.target)
    }

    /// Plays the current letters as a guess, given that they read
    /// `word_lower` in lowercase.
    ///
    /// Fails with "Not enough letters" unless five letters are typed, and
    /// with "Not in word list" unless the word list holds `word_lower`; the
    /// game is then unchanged. Otherwise the guess is scored against the
    /// target and recorded, the keyboard hints are raised, the typed letters
    /// are cleared, and the game is won when the guess is the target or lost
    /// when it was the sixth.
    pub fn submit_word(&mut self, word_lower: &String) -> (r: Result<(), String>)
        ensures
            submit_post(*old(self), *final(self), word_lower@, r),
    {
        if self.current.len() != WORD_LEN {
            return Err("Not enough letters".to_string());
        }
        let mut found = false;
        let mut k: usize = 0;
        while k < self.word_list.len()
            invariant
                0 <= k <= self.word_list@.len(),
                found == exists|j: int|
                    0 <= j < k && #[trigger] self.word_list@[j]@ == word_lower@,
            decreases self.word_list@.len() - k,
        {
            if self.word_list[k] == *word_lower {
                found = true;
            }
            k += 1;
        }
        if !found {
            return Err("Not in word list".to_string());
        }
        let ghost before = *self;
        let letters: [char; 5] = [
            self.current[0],
            self.current[1],
            self.current[2],
            self.current[3],
            self.current[4],
        ];
        assert(letters@ =~= self.current@);
        let states = score_guess(&self.target, &letters);

        let ghost kb0 = self.keyboard@;
        let mut i: usize = 0;
        while i < WORD_LEN
            invariant
                0 <= i <= 5,
                self.keyboard@ == keyboard_after(kb0, letters@, states@, i as int),
                self.target == before.target,
                self.guesses == before.guesses,
                self.current == before.current,
                self.status == before.status,
                self.word_list == before.word_list,
            decreases 5 - i,
        {
            let c = letters[i];
            let key = c as u32;
            let current_best = match self.keyboard.get(&key) {
                Some(s) => *s,
                None => LetterState::Unknown,
            };
            if states[i] > current_best {
                self.keyboard.insert(key, states[i]);
            }
            i += 1;
        }

        let mut won = true;
        let mut j: usize = 0;
        while j < WORD_LEN
            invariant
                0 <= j <= 5,
                won == forall|m: int| 0 <= m < j ==> letters@[m] == self.target@[m],
                self.target == before.target,
            decreases 5 - j,
        {
            if letters[j] != self.target[j] {
                won = false;
            }
            j += 1;
        }
        assert(won == (letters@ == self.target@)) by {
            if won {
                assert(letters@ =~= self.target@);
            }
        }

        self.guesses.push(Guess { letters, states });
        self.current.clear();
        if won {
            self.status = GameStatus::Won;
        } else if self.guesses.len() >= MAX_GUESSES {
            self.status = GameStatus::Lost;
        }
        assert(self.guesses@.subrange(0, before.guesses@.len() as int) =~= before.guesses@);
        Ok(())
    }

    /// Plays the current letters as a guess, looking them up in the word
    /// list in lowercase; see `submit_word` for what happens.
    pub fn submit(&mut self) -> (r: Result<(), String>)
        ensures
            submit_post(*old(self), *final(self), lowercase_of(old(self).current@), r),
    {
        if self.current.len() != WORD_LEN {
            return Err("Not enough letters".to_string());
        }
        let word_upper = string_from_chars(self.current.as_slice());
        let word_lower = to_lowercase(word_upper.as_str());
        self.submit_word(&word_lower)
    }
}

/// Different characters are recorded under different keys.
pub proof fn lemma_key_of_injective(a: char, b: char)
    ensures
        key_of(a) == key_of(b) ==> a == b,
{
    assert(0 <= a as int <= 0x10FFFF);
    assert((a as u32) as int == a as int);
    assert((b as u32) as int == b as int);
}

/// Keyboard hints are never lowered: after recording a scored guess, every
/// letter shows a hint at least as revealing as before and at least as
/// revealing as each state that the guess gave it; and each hint is either
/// the one shown before or one that the guess gave that letter.
pub proof fn law_keyboard_hints_only_rise(
    kb: Map<u32, LetterState>,
    letters: Seq<char>,
    states: Seq<LetterState>,
    n: int,
)
    requires
        0 <= n <= letters.len(),
        n <= states.len(),
    ensures
        forall|c: char|
            state_rank(#[trigger] shown_hint(keyboard_after(kb, letters, states, n), c))
                >= state_rank(shown_hint(kb, c)),
        forall|i: int|
            0 <= i < n ==> state_rank(
                shown_hint(keyboard_after(kb, letters, states, n), #[trigger] letters[i]),
            ) >= state_rank(states[i]),
        forall|c: char|
            #[trigger] shown_hint(keyboard_after(kb, letters, states, n), c) == shown_hint(kb, c)
                || exists|i: int|
                0 <= i < n && letters[i] == c && shown_hint(
                    keyboard_after(kb, letters, states, n),
                    c,
                ) == states[i],
    decreases n,
{
    if n > 0 {
        law_keyboard_hints_only_rise(kb, letters, states, n - 1);
        let m = keyboard_after(kb, letters, states, n - 1);
        let m2 = keyboard_after(kb, letters, states, n);
        assert forall|c: char|
            shown_hint(m2, c) == shown_hint(m, c) || (c == letters[n - 1] && shown_hint(m2, c)
                == states[n - 1] && state_rank(states[n - 1]) > state_rank(
                shown_hint(m, c),
            )) by {
            if c != letters[n - 1] {
                lemma_key_of_injective(c, letters[n - 1]);
            }
        }
        assert(state_rank(shown_hint(m2, letters[n - 1])) >= state_rank(states[n - 1]));
        assert forall|i: int|
            0 <= i < n implies state_rank(shown_hint(m2, #[trigger] letters[i])) >= state_rank(
            states[i],
        ) by {
            if i < n - 1 {
                assert(state_rank(shown_hint(m, letters[i])) >= state_rank(states[i]));
            }
        }
        assert forall|c: char|
            #[trigger] shown_hint(m2, c) == shown_hint(kb, c) || exists|i: int|
                0 <= i < n && letters[i] == c && shown_hint(m2, c) == states[i] by {
            if shown_hint(m2, c) == shown_hint(m, c) {
                if shown_hint(m, c) != shown_hint(kb, c) {
                    let i = choose|i: int|
                        0 <= i < n - 1 && letters[i] == c && shown_hint(m, c) == states[i];
                    assert(0 <= i < n && letters[i] == c && shown_hint(m2, c) == states[i]);
                }
            } else {
                assert(letters[n - 1] == c && shown_hint(m2, c) == states[n - 1]);
            }
        }
    }
}

/// A game on goes on for at most six guesses: if a game still on has had
/// fewer than six guesses, then after a guess it is either over or still
/// under six; and the sixth guess always ends it.
pub proof fn law_at_most_six_guesses(before: Game, after: Game)
    requires
        guess_played(before, after),
        before.status == GameStatus::Playing ==> before.guesses@.len() < 6,
    ensures
        after.status == GameStatus::Playing ==> after.guesses@.len() < 6,
        before.status == GameStatus::Playing && before.guesses@.len() == 5 ==> after.status
            != GameStatus::Playing,
{
}

/// A game on is won by a guess exactly when the guess is the target, and
/// then every letter of that guess is `Correct`.
pub proof fn law_won_exactly_by_target(before: Game, after: Game)
    requires
        guess_played(before, after),
        before.status == GameStatus::Playing,
    ensures
        (after.status == GameStatus::Won) == (before.current@ == before.target@),
        after.status == GameStatus::Won ==> forall|i: int|
            0 <= i < 5 ==> #[trigger] after.guesses@.last().states@[i] == LetterState::Correct,
{
}

/// Typing a letter and then erasing it gives back the typed letters, while
/// the game is on and there is room for the letter.
pub proof fn law_backspace_undoes_typing(current: Seq<char>, c: char)
    requires
        current.len() < 5,
    ensures
        after_backspace(after_typing(current, GameStatus::Playing, c), GameStatus::Playing)
            == current,
{
    assert(current.push(ascii_upper(c)).drop_last() =~= current);
}

/// Never more than five letters are typed, and a finished game takes no
/// typing and no erasing.
pub proof fn law_typing_bounds(current: Seq<char>, status: GameStatus, c: char)
    ensures
        current.len() <= 5 ==> after_typing(current, status, c).len() <= 5,
        current.len() <= 5 ==> after_backspace(current, status).len() <= 5,
        status != GameStatus::Playing ==> after_typing(current, status, c) == current
            && after_backspace(current, status) == current,
{
}

/// A guess is played exactly when five letters are typed and the word list
/// holds the word they read, letter for letter; otherwise nothing changes.
/// A played guess adds exactly one guess, holding the typed letters.
pub proof fn law_only_listed_words_are_played(
    before: Game,
    after: Game,
    word_lower: Seq<char>,
    r: Result<(), String>,
)
    requires
        submit_post(before, after, word_lower, r),
    ensures
        (r is Ok) == (before.current@.len() == 5 && exists|k: int|
            0 <= k < before.word_list@.len() && (#[trigger] before.word_list@[k])@.len()
                == word_lower.len() && forall|m: int|
                0 <= m < word_lower.len() ==> before.word_list@[k]@[m] == word_lower[m]),
        r is Err ==> after == before,
        r is Ok ==> after.guesses@.len() == before.guesses@.len() + 1
            && after.guesses@[before.guesses@.len() as int].letters@ == before.current@,
{
    if before.current@.len() == 5 {
        if exists|k: int|
            0 <= k < before.word_list@.len() && (#[trigger] before.word_list@[k])@.len()
                == word_lower.len() && forall|m: int|
                0 <= m < word_lower.len() ==> before.word_list@[k]@[m] == word_lower[m] {
            let k = choose|k: int|
                0 <= k < before.word_list@.len() && (#[trigger] before.word_list@[k])@.len()
                    == word_lower.len() && forall|m: int|
                    0 <= m < word_lower.len() ==> before.word_list@[k]@[m] == word_lower[m];
            assert(before.word_list@[k]@ =~= word_lower);
        }
    }
    if r is Ok {
        assert(after.guesses@.last() == after.guesses@[before.guesses@.len() as int]);
    }
}

} // verus!
