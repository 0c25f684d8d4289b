# wordle_tui

A terminal Wordle game whose rules are verified with Verus.

- `src/letter.rs`: the letter states and their order.
- `src/scoring.rs`: scoring a guess against the target, with duplicate
  letters, and the laws of scoring.
- `src/game.rs`: one game: typing, erasing, submitting, the keyboard hints,
  winning and losing.
- `src/app.rs`: the application state around a game: screens, messages,
  the shake effect and the blinking cursor.
- `src/words.rs`: turning a word file into the word list.
- `src/view.rs`: what the screen shows: colors, tile contents, layout.
- `src/text.rs`, `src/random.rs`, `src/clock.rs`: the calls into the
  standard library and `rand` that the logic makes.
- `app/`: the terminal front end (crossterm and ratatui), reading the word
  files `en.txt` and `sk.txt` from the working directory; the first argument
  picks the language.
