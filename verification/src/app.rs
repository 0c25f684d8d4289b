use std::time::Instant;
use vstd::prelude::*;
use crate::clock::{elapsed_ms, millis_between, now};
use crate::game::{
    Game, after_backspace, after_typing, GameStatus, all_playable, guess_played, initial_keyboard, playable_words,
    submit_outcome,
};
use crate::text::{lowercase_of, uppercase_of};

verus! {

/// Milliseconds between two flips of the cursor.
pub const CURSOR_BLINK_MS: u128 = 500;

/// Milliseconds for which a message stays on screen.
pub const MESSAGE_DURATION_MS: u128 = 1500;

/// Milliseconds for which the grid shakes after a refused guess.
pub const SHAKE_DURATION_MS: u128 = 300;

/// The screen the application shows.
#[derive(Clone, Copy, Debug, PartialEq, Eq, Structural)]
pub enum Screen {
    Playing,
    Won,
    Lost,
    Quit,
}

/// The screen that shows a game with the given status.
pub open spec fn screen_for(status: GameStatus) -> Screen {
    match status {
        GameStatus::Playing => Screen::Playing,
        GameStatus::Won => Screen::Won,
        GameStatus::Lost => Screen::Lost,
    }
}

/// The application: the game, the screen, the word list, and the state of
/// the message line, the shake effect and the blinking cursor.
pub struct App {
    pub game: Game,
    pub screen: Screen,
    pub words: Vec<String>,
    pub shake: Option<Instant>,
    pub msg: Option<String>,
    pub msg_time: Option<Instant>,
    pub cursor_blink: bool,
    pub last_tick: Instant,
}

/// Whether `g` is a game just started from `words`.
pub open spec fn fresh_game(g: Game, words: Seq<String>) -> bool {
    &&& exists|i: int| 0 <= i < words.len() && g.target@ == uppercase_of(#[trigger] words[i]@)
    &&& g.word_list@ == words
    &&& g.guesses@.len() == 0
    &&& g.current@.len() == 0
    &&& g.keyboard@ == initial_keyboard()
    &&& g.status == GameStatus::Playing
}

/// Whether `app` is just started with `words`.
pub open spec fn fresh_app(app: App, words: Vec<String>) -> bool {
    &&& fresh_game(app.game, words@)
    &&& app.screen == Screen::Playing
    &&& app.words == words
    &&& app.shake is None
    &&& app.msg is None
    &&& app.msg_time is None
    &&& !app.cursor_blink
}

impl App {
    /// The screen agrees with the game, unless the application was quit.
    pub open spec fn consistent(&self) -> bool {
        self.screen == Screen::Quit || self.screen == screen_for(self.game.status)
    }

    /// A new application with a new game from `words`.
    pub fn new(words: Vec<String>) -> (app: App)
        requires
            playable_words(words@),
        ensures
            fresh_app(app, words),
            app.consistent(),
    {
        let copy = words.clone();
        assert(copy@ =~= words@);
        let game = Game::new(copy);
        App {
            screen: Screen::Playing,
            words,
            game,
            shake: None,
            msg: None,
            msg_time: None,
            cursor_blink: false,
            last_tick: now(),
        }
    }

    /// A new application as `new` makes it, or `None` when `words` is empty
    /// or holds a word that does not give five letters in uppercase.
    pub fn try_new(words: Vec<String>) -> (r: Option<App>)
        ensures
            r is Some <==> playable_words(words@),
            r matches Some(app) ==> fresh_app(app, words) && app.consistent(),
    {
        if all_playable(&words) {
            Some(App::new(words))
        } else {
            None
        }
    }

    /// Types a letter into the game while the game screen is shown.
    pub fn type_char(&mut self, c: char)
        ensures
            final(self).game.current@ == if old(self).screen == Screen::Playing {
                after_typing(old(self).game.current@, old(self).game.status, c)
            } else {
                old(self).game.current@
            },
            same_game_but_letters(old(self).game, final(self).game),
            same_shell(*old(self), *final(self)),
            old(self).consistent() ==> final(self).consistent(),
    {
        if self.screen == Screen::Playing {
            self.game.type_char(c);
        }
    }

    /// Removes the last typed letter while the game screen is shown.
    pub fn backspace(&mut self)
        ensures
            final(self).game.current@ == if old(self).screen == Screen::Playing {
                after_backspace(old(self).game.current@, old(self).game.status)
            } else {
                old(self).game.current@
            },
            same_game_but_letters(old(self).game, final(self).game),
            same_shell(*old(self), *final(self)),
            old(self).consistent() ==> final(self).consistent(),
    {
        if self.screen == Screen::Playing {
            self.game.backspace();
        }
    }

    /// Submits the typed letters while the game screen is shown. A played
    /// guess moves the screen to the game's new status; a refused one starts
    /// the shake and shows the reason as the message.
    pub fn submit(&mut self)
        ensures
            old(self).screen != Screen::Playing ==> *final(self) == *old(self),
            old(self).screen == Screen::Playing ==> match submit_outcome(
                old(self).game,
                lowercase_of(old(self).game.current@),
            ) {
                Ok(()) => {
                    &&& guess_played(old(self).game, final(self).game)
                    &&& final(self).screen == screen_for(final(self).game.status)
                    &&& final(self).words == old(self).words
                    &&& final(self).shake == old(self).shake
                    &&& final(self).msg == old(self).msg
                    &&& final(self).msg_time == old(self).msg_time
                    &&& final(self).cursor_blink == old(self).cursor_blink
                    &&& final(self).last_tick == old(self).last_tick
                },
                Err(m) => {
                    &&& final(self).game == old(self).game
                    &&& final(self).msg matches Some(e) && e@ == m
                    &&& final(self).shake is Some
                    &&& final(self).msg_time is Some
                    &&& final(self).screen == old(self).screen
                    &&& final(self).words == old(self).words
                    &&& final(self).cursor_blink == old(self).cursor_blink
                    &&& final(self).last_tick == old(self).last_tick
                },
            },
            old(self).consistent() ==> final(self).consistent(),
    {
        if self.screen != Screen::Playing {
            return;
        }
        match self.game.submit() {
            Ok(()) => {
                self.update_screen();
            },
            Err(e) => {
                self.shake = Some(now());
                self.set_message(e);
            },
        }
    }

    /// Shows the screen that goes with the game's status.
    fn update_screen(&mut self)
        ensures
            final(self).screen == screen_for(old(self).game.status),
            final(self).game == old(self).game,
            final(self).words == old(self).words,
            final(self).shake == old(self).shake,
            final(self).msg == old(self).msg,
            final(self).msg_time == old(self).msg_time,
            final(self).cursor_blink == old(self).cursor_blink,
            final(self).last_tick == old(self).last_tick,
    {
        self.screen = match self.game.status {
            GameStatus::Playing => Screen::Playing,
            GameStatus::Won => Screen::Won,
            GameStatus::Lost => Screen::Lost,
        };
    }

    /// Starts a new game from the word list, back on the game screen, with
    /// no shake and no message.
    pub fn new_game(&mut self)
        requires
            playable_words(old(self).words@),
        ensures
            fresh_game(final(self).game, old(self).words@),
            final(self).screen == Screen::Playing,
            final(self).words == old(self).words,
            final(self).shake is None,
            final(self).msg is None,
            final(self).msg_time is None,
            final(self).cursor_blink == old(self).cursor_blink,
            final(self).last_tick == old(self).last_tick,
            final(self).consistent(),
    {
        let copy = self.words.clone();
        assert(copy@ =~= self.words@);
        self.game = Game::new(copy);
        self.screen = Screen::Playing;
        self.shake = None;
        self.msg = None;
        self.msg_time = None;
    }

    /// Starts a new game as `new_game` does when the word list is playable,
    /// and returns whether it did; otherwise leaves everything as it is.
    pub fn try_new_game(&mut self) -> (started: bool)
        ensures
            started == playable_words(old(self).words@),
            started ==> {
                &&& fresh_game(final(self).game, old(self).words@)
                &&& final(self).screen == Screen::Playing
                &&& final(self).words == old(self).words
                &&& final(self).shake is None
                &&& final(self).msg is None
                &&& final(self).msg_time is None
                &&& final(self).cursor_blink == old(self).cursor_blink
                &&& final(self).last_tick == old(self).last_tick
            },
            !started ==> *final(self) == *old(self),
            old(self).consistent() ==> final(self).consistent(),
    {
        if all_playable(&self.words) {
            self.new_game();
            true
        } else {
            false
        }
    }

    /// Leaves the application.
    pub fn quit(&mut self)
        ensures
            final(self).screen == Screen::Quit,
            final(self).game == old(self).game,
            final(self).words == old(self).words,
            final(self).shake == old(self).shake,
            final(self).msg == old(self).msg,
            final(self).msg_time == old(self).msg_time,
            final(self).cursor_blink == old(self).cursor_blink,
            final(self).last_tick == old(self).last_tick,
            final(self).consistent(),
    {
        self.screen = Screen::Quit;
    }

    /// Whether the game screen is no longer shown.
    pub fn is_done(&self) -> (b: bool)
        ensures
            b == (self.screen != Screen::Playing),
    {
        self.screen != Screen::Playing
    }

    /// Shows `msg` as the message, from now on.
    fn set_message(&mut self, msg: String)
        ensures
            final(self).msg == Some(msg),
            final(self).msg_time is Some,
            final(self).game == old(self).game,
            final(self).screen == old(self).screen,
            final(self).words == old(self).words,
            final(self).shake == old(self).shake,
            final(self).cursor_blink == old(self).cursor_blink,
            final(self).last_tick == old(self).last_tick,
    {
        self.msg = Some(msg);
        self.msg_time = Some(now());
    }

    /// Advances the timed effects to the current time: see `tick_at`, which
    /// this calls with a reading of the clock and the milliseconds from the
    /// last flip of the cursor, from the showing of the message, and from the
    /// start of the shake to that reading. What the clock reads is not known
    /// here, so the contract states the outcome for some reading.
    pub fn tick(&mut self)
        ensures
            exists|now: Instant|
                tick_outcome(
                    *old(self),
                    *final(self),
                    now,
                    elapsed_ms(now, old(self).last_tick),
                    match old(self).msg_time {
                        Some(m) => elapsed_ms(now, m),
                        None => 0u128,
                    },
                    match old(self).shake {
                        Some(s) => elapsed_ms(now, s),
                        None => 0u128,
                    },
                ),
    {
        let ghost before = *self;
        let t = now();
        let since_tick = millis_between(&t, &self.last_tick);
        let since_msg = match &self.msg_time {
            Some(m) => millis_between(&t, m),
            None => 0,
        };
        let since_shake = match &self.shake {
            Some(s) => millis_between(&t, s),
            None => 0,
        };
        self.tick_at(t, since_tick, since_msg, since_shake);
        assert(tick_outcome(before, *self, t, since_tick, since_msg, since_shake));
    }

    /// Advances the timed effects to `now`, given the milliseconds that have
    /// passed since the last flip of the cursor (`since_tick`), since the
    /// message was shown (`since_msg`, read only while there is a message)
    /// and since the shake started (`since_shake`, read only while shaking).
    /// The cursor flips, and `now` becomes the last flip, once at least
    /// `CURSOR_BLINK_MS` have passed; the message goes once more than
    /// `MESSAGE_DURATION_MS` have passed; the shake stops once at least
    /// `SHAKE_DURATION_MS` have passed.
    pub fn tick_at(&mut self, now: Instant, since_tick: u128, since_msg: u128, since_shake: u128)
        ensures
            final(self).cursor_blink == if since_tick >= CURSOR_BLINK_MS {
                !old(self).cursor_blink
            } else {
                old(self).cursor_blink
            },
            final(self).last_tick == if since_tick >= CURSOR_BLINK_MS {
                now
            } else {
                old(self).last_tick
            },
            (final(self).msg, final(self).msg_time) == if old(self).msg_time is Some && since_msg
                > MESSAGE_DURATION_MS {
                (None, None)
            } else {
                (old(self).msg, old(self).msg_time)
            },
            final(self).shake == if old(self).shake is Some && since_shake >= SHAKE_DURATION_MS {
                None
            } else {
                old(self).shake
            },
            final(self).game == old(self).game,
            final(self).screen == old(self).screen,
            final(self).words == old(self).words,
    {
        if since_tick >= CURSOR_BLINK_MS {
            self.cursor_blink = !self.cursor_blink;
            self.last_tick = now;
        }
        if self.msg_time.is_some() {
            if since_msg > MESSAGE_DURATION_MS {
                self.msg = None;
                self.msg_time = None;
            }
        }
        if self.shake.is_some() {
            if since_shake >= SHAKE_DURATION_MS {
                self.shake = None;
            }
        }
    }
}

/// What `tick_at` does when called at `now` with the given elapsed
/// milliseconds: the cursor flips and `now` becomes the last flip once
/// `CURSOR_BLINK_MS` have passed; the message and its time go once more than
/// `MESSAGE_DURATION_MS` have passed since it was shown; the shake stops once
/// `SHAKE_DURATION_MS` have passed; nothing else changes.
pub open spec fn tick_outcome(
    before: App,
    after: App,
    now: Instant,
    since_tick: u128,
    since_msg: u128,
    since_shake: u128,
) -> bool {
    &&& after.cursor_blink == if since_tick >= CURSOR_BLINK_MS {
        !before.cursor_blink
    } else {
        before.cursor_blink
    }
    &&& after.last_tick == if since_tick >= CURSOR_BLINK_MS {
        now
    } else {
        before.last_tick
    }
    &&& (after.msg, after.msg_time) == if before.msg_time is Some && since_msg
        > MESSAGE_DURATION_MS {
        (None, None)
    } else {
        (before.msg, before.msg_time)
    }
    &&& after.shake == if before.shake is Some && since_shake >= SHAKE_DURATION_MS {
        None
    } else {
        before.shake
    }
    &&& after.game == before.game
    &&& after.screen == before.screen
    &&& after.words == before.words
}

/// `after` has the game of `before` with at most its typed letters changed.
pub open spec fn same_game_but_letters(before: Game, after: Game) -> bool {
    &&& after.target == before.target
    &&& after.guesses == before.guesses
    &&& after.keyboard == before.keyboard
    &&& after.status == before.status
    &&& after.word_list == before.word_list
}

/// `after` differs from `before` at most in its game.
pub open spec fn same_shell(before: App, after: App) -> bool {
    &&& after.screen == before.screen
    &&& after.words == before.words
    &&& after.shake == before.shake
    &&& after.msg == before.msg
    &&& after.msg_time == before.msg_time
    &&& after.cursor_blink == before.cursor_blink
    &&& after.last_tick == before.last_tick
}

} // verus!
