//! The guess-evaluation and input-validation engine of a five-letter
//! word-guessing game.

pub mod game;
pub mod scoring;
pub mod text;
pub mod validation;

pub use game::{validate_input, CurdleGame, Status};
pub use scoring::{score, Verdict};
pub use validation::{validate, RejectionReason, WORD_LENGTH};
