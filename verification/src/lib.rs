//! A terminal Wordle game: the rules of the game (scoring a guess, the
//! keyboard hints, winning and losing), the application state machine around
//! it, the word-list parsing, and the decisions behind the screen layout.

pub mod letter;
pub mod scoring;
pub mod text;
pub mod game;
pub mod app;
pub mod words;
pub mod view;
mod random;
mod clock;
