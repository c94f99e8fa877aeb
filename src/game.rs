//! One session of the game: dictionary, answer, attempts left and accepted guesses.
use vstd::prelude::*;
use rand::Rng;
use crate::scoring::{chars_of, score, unmatched_answer_letters, unmatched_letters, verdicts_of, Verdict};
use crate::text::{complete_line, line_body, lower_of, to_lower};
use crate::validation::{check_guess, check_outcome, RejectionReason};

verus! {

/// Relies on `rand::Rng::gen_range` on the thread-local generator: a value drawn
/// from `0..len`, which must not be empty.
#[verifier::external_body]
fn random_index(len: usize) -> (r: usize)
    requires
        len > 0,
    ensures
        r < len,
{
    rand::thread_rng().gen_range(0..len)
}

/// Runs the checks in order on the session's current guess, against its
/// dictionary and its history of accepted guesses.
pub fn validate_input(curdle_game: &CurdleGame) -> (r: Result<(), RejectionReason>)
    ensures
        r == check_outcome(curdle_game@.guess, curdle_game@.words, curdle_game@.history),
{
    check_guess(&curdle_game.guess, &curdle_game.words, &curdle_game.previous_guesses)
}

/// Where a session stands after a scored guess.
#[derive(Clone, Copy, Debug, PartialEq, Eq, Structural)]
pub enum Status {
    /// The guess was the answer.
    Won,
    /// The guess missed and no attempt is left.
    Lost,
    /// The guess missed and attempts are left.
    Playing,
}

/// The state of a session, as plain values.
pub ghost struct GameView {
    pub words: Seq<Seq<char>>,
    pub tries: i16,
    pub answer: Seq<char>,
    pub guess: Seq<char>,
    pub history: Seq<Seq<char>>,
}

/// One session of the game.
pub struct CurdleGame {
    words: Vec<String>,
    tries: i16,
    answer: String,
    guess: String,
    previous_guesses: Vec<String>,
}

impl View for CurdleGame {
    type V = GameView;

    closed spec fn view(&self) -> GameView {
        GameView {
            words: self.words.deep_view(),
            tries: self.tries,
            answer: self.answer@,
            guess: self.guess@,
            history: self.previous_guesses.deep_view(),
        }
    }
}

impl CurdleGame {
    /// A session with `tries` attempts, an empty dictionary, answer, guess and history.
    pub fn new(tries: i16) -> (r: CurdleGame)
        ensures
            r@.words == Seq::<Seq<char>>::empty(),
            r@.tries == tries,
            r@.answer == Seq::<char>::empty(),
            r@.guess == Seq::<char>::empty(),
            r@.history == Seq::<Seq<char>>::empty(),
    {
        let r = Self {
            words: Vec::new(),
            tries: tries,
            answer: String::new(),
            guess: String::new(),
            previous_guesses: Vec::new(),
        };
        assert(r@.words =~= Seq::<Seq<char>>::empty());
        assert(r@.history =~= Seq::<Seq<char>>::empty());
        r
    }

    /// Installs the dictionary of the session.
    pub fn set_words(&mut self, words: Vec<String>)
        ensures
            final(self)@.words == words.deep_view(),
            final(self)@.tries == old(self)@.tries,
            final(self)@.answer == old(self)@.answer,
            final(self)@.guess == old(self)@.guess,
            final(self)@.history == old(self)@.history,
    {
        self.words = words;
    }

    /// Makes the dictionary word at `index` the answer.
    pub fn set_answer_at(&mut self, index: usize)
        requires
            index < old(self)@.words.len(),
        ensures
            final(self)@.answer == old(self)@.words[index as int],
            final(self)@.words == old(self)@.words,
            final(self)@.tries == old(self)@.tries,
            final(self)@.guess == old(self)@.guess,
            final(self)@.history == old(self)@.history,
    {
        proof {
            assert(self.words.deep_view()[index as int] == self.words@[index as int]@);
        }
        self.answer = self.words[index].clone();
    }

    /// Draws the answer at random from the dictionary.
    pub fn set_answer(&mut self)
        requires
            old(self)@.words.len() > 0,
        ensures
            old(self)@.words.contains(final(self)@.answer),
            final(self)@.words == old(self)@.words,
            final(self)@.tries == old(self)@.tries,
            final(self)@.guess == old(self)@.guess,
            final(self)@.history == old(self)@.history,
    {
        let index = random_index(self.words.len());
        self.set_answer_at(index);
    }

    /// Takes one raw input line. `None`: the line has no terminator yet and is
    /// ignored. Otherwise the line is lower-cased into the current guess and
    /// checked; an accepted guess is appended to the history.
    pub fn user_input(&mut self, raw: &str) -> (r: Option<Result<(), RejectionReason>>)
        ensures
            line_body(raw@) is None ==> r is None && final(self)@ == old(self)@,
            line_body(raw@) matches Some(body) ==> {
                let g = lower_of(body);
                let outcome = check_outcome(g, old(self)@.words, old(self)@.history);
                &&& r == Some(outcome)
                &&& final(self)@.guess == g
                &&& final(self)@.history == if outcome is Ok {
                    old(self)@.history.push(g)
                } else {
                    old(self)@.history
                }
                &&& final(self)@.words == old(self)@.words
                &&& final(self)@.tries == old(self)@.tries
                &&& final(self)@.answer == old(self)@.answer
            },
    {
        let body = match complete_line(raw) {
            Some(s) => s,
            None => return None,
        };
        self.guess = to_lower(body.as_str());
        let outcome = validate_input(self);
        if outcome.is_ok() {
            let accepted = self.guess.clone();
            self.previous_guesses.push(accepted);
            assert(self.previous_guesses.deep_view() =~= old(self)@.history.push(self.guess@));
        }
        Some(outcome)
    }

    /// The answer's letters at the positions where the current guess misses, in order.
    pub fn get_non_matching_chars(&self) -> (r: Vec<char>)
        requires
            self@.guess.len() == self@.answer.len(),
        ensures
            r@ == unmatched_letters(self@.guess, self@.answer),
    {
        let g = chars_of(self.guess.as_str());
        let a = chars_of(self.answer.as_str());
        unmatched_answer_letters(&g, &a)
    }

    /// Scores the current guess against the answer.
    pub fn check_answer(&self) -> (r: (bool, Vec<Verdict>))
        requires
            self@.guess.len() == self@.answer.len(),
        ensures
            r.0 == (self@.guess == self@.answer),
            r.1@ == verdicts_of(self@.guess, self@.answer),
    {
        score(self.guess.as_str(), self.answer.as_str())
    }

    /// Takes one attempt away.
    pub fn lose_life(&mut self)
        requires
            old(self)@.tries > i16::MIN,
        ensures
            final(self)@.tries == old(self)@.tries - 1,
            final(self)@.words == old(self)@.words,
            final(self)@.answer == old(self)@.answer,
            final(self)@.guess == old(self)@.guess,
            final(self)@.history == old(self)@.history,
    {
        self.tries -= 1;
    }

    /// Scores the current guess and settles the turn: a win ends the session,
    /// a miss costs one attempt and ends it when none is left.
    pub fn play_turn(&mut self) -> (r: (Vec<Verdict>, Status))
        requires
            old(self)@.tries > 0,
            old(self)@.guess.len() == old(self)@.answer.len(),
        ensures
            r.0@ == verdicts_of(old(self)@.guess, old(self)@.answer),
            old(self)@.guess == old(self)@.answer ==> r.1 == Status::Won && final(self)@.tries
                == old(self)@.tries,
            old(self)@.guess != old(self)@.answer ==> final(self)@.tries == old(self)@.tries - 1
                && r.1 == if final(self)@.tries == 0 {
                Status::Lost
            } else {
                Status::Playing
            },
            final(self)@.words == old(self)@.words,
            final(self)@.answer == old(self)@.answer,
            final(self)@.guess == old(self)@.guess,
            final(self)@.history == old(self)@.history,
    {
        let (won, verdicts) = self.check_answer();
        if won {
            return (verdicts, Status::Won);
        }
        self.lose_life();
        if self.tries == 0 {
            (verdicts, Status::Lost)
        } else {
            (verdicts, Status::Playing)
        }
    }

    /// Whether the current guess and the answer have the same length, as scoring needs.
    pub fn ready_to_score(&self) -> (r: bool)
        ensures
            r == (self@.guess.len() == self@.answer.len()),
    {
        self.guess.as_str().unicode_len() == self.answer.as_str().unicode_len()
    }

    /// The attempts left.
    pub fn tries(&self) -> (r: i16)
        ensures
            r == self@.tries,
    {
        self.tries
    }

    /// The answer of the session.
    pub fn answer(&self) -> (r: &String)
        ensures
            r@ == self@.answer,
    {
        &self.answer
    }

    /// The guesses accepted so far, oldest first.
    pub fn previous_guesses(&self) -> (r: &Vec<String>)
        ensures
            r.deep_view() == self@.history,
    {
        &self.previous_guesses
    }
}

} // verus!
