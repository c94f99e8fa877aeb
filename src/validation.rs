//! The ordered chain of checks that a guess must pass before it is scored.
use vstd::prelude::*;
use crate::scoring::chars_of;
use crate::text::{all_alphabetic, is_all_alphabetic, lower_of, to_lower};

verus! {

/// The number of letters of every word of the game.
pub const WORD_LENGTH: usize = 5;

/// Why a guess was turned down.
#[derive(Clone, Copy, Debug, PartialEq, Eq, Structural)]
pub enum RejectionReason {
    /// The guess holds a character that is not a letter.
    NonAlphabetic,
    /// The guess does not have the word length; carries the length it has.
    WrongLength(usize),
    /// The guess is not a word of the dictionary.
    NotInDictionary,
    /// The guess was already accepted earlier in the session.
    AlreadyGuessed,
}

/// Whether `list` holds the word `w`.
pub open spec fn contains_word(list: Seq<Seq<char>>, w: Seq<char>) -> bool {
    list.contains(w)
}

/// The outcome of the checks on an already normalized guess, the first failing
/// check deciding: letters, then length, then dictionary, then repetition.
pub open spec fn check_outcome(guess: Seq<char>, dictionary: Seq<Seq<char>>, history: Seq<Seq<char>>) -> Result<(), RejectionReason> {
    if !all_alphabetic(guess) {
        Err(RejectionReason::NonAlphabetic)
    } else if guess.len() != WORD_LENGTH {
        Err(RejectionReason::WrongLength(guess.len() as usize))
    } else if !contains_word(dictionary, guess) {
        Err(RejectionReason::NotInDictionary)
    } else if contains_word(history, guess) {
        Err(RejectionReason::AlreadyGuessed)
    } else {
        Ok(())
    }
}

/// The outcome of validating a raw candidate: it is lower-cased, then checked.
pub open spec fn validation_outcome(candidate: Seq<char>, dictionary: Seq<Seq<char>>, history: Seq<Seq<char>>) -> Result<Seq<char>, RejectionReason> {
    match check_outcome(lower_of(candidate), dictionary, history) {
        Ok(()) => Ok(lower_of(candidate)),
        Err(e) => Err(e),
    }
}

/// Whether `list` holds a string equal to `word`.
pub fn contains_string(list: &Vec<String>, word: &String) -> (r: bool)
    ensures
        r == contains_word(list.deep_view(), word@),
{
    let mut i: usize = 0;
    while i < list.len()
        invariant
            i <= list@.len(),
            forall|j: int| 0 <= j < i ==> (#[trigger] list@[j])@ != word@,
        decreases list@.len() - i,
    {
        assert(list.deep_view()[i as int] == list@[i as int]@);
        if list[i] == *word {
            assert(list.deep_view()[i as int] == word@);
            return true;
        }
        i += 1;
    }
    assert forall|j: int| 0 <= j < list.deep_view().len() implies list.deep_view()[j] != word@ by {
        assert(list.deep_view()[j] == list@[j]@);
    }
    false
}

/// The letter check: every character of the guess is alphabetic.
pub fn validate_alphabetic(guess: &String) -> (r: Result<(), RejectionReason>)
    ensures
        r == if all_alphabetic(guess@) {
            Ok(())
        } else {
            Err(RejectionReason::NonAlphabetic)
        },
{
    let letters = chars_of(guess.as_str());
    if is_all_alphabetic(&letters) {
        Ok(())
    } else {
        Err(RejectionReason::NonAlphabetic)
    }
}

/// The length check: the guess has exactly the word length in characters.
pub fn validate_word_length(guess: &String) -> (r: Result<(), RejectionReason>)
    ensures
        r == if guess@.len() == WORD_LENGTH {
            Ok(())
        } else {
            Err(RejectionReason::WrongLength(guess@.len() as usize))
        },
{
    let n = guess.as_str().unicode_len();
    if n == WORD_LENGTH {
        Ok(())
    } else {
        Err(RejectionReason::WrongLength(n))
    }
}

/// The dictionary check: the guess is a word of the dictionary.
pub fn validate_in_dictionary(guess: &String, dictionary: &Vec<String>) -> (r: Result<(), RejectionReason>)
    ensures
        r == if contains_word(dictionary.deep_view(), guess@) {
            Ok(())
        } else {
            Err(RejectionReason::NotInDictionary)
        },
{
    if contains_string(dictionary, guess) {
        Ok(())
    } else {
        Err(RejectionReason::NotInDictionary)
    }
}

/// The repetition check: the guess was not accepted before.
pub fn validate_previously_guessed(guess: &String, history: &Vec<String>) -> (r: Result<(), RejectionReason>)
    ensures
        r == if contains_word(history.deep_view(), guess@) {
            Err(RejectionReason::AlreadyGuessed)
        } else {
            Ok(())
        },
{
    if contains_string(history, guess) {
        Err(RejectionReason::AlreadyGuessed)
    } else {
        Ok(())
    }
}

/// Runs the checks on a normalized guess in order and reports the first failure.
pub fn check_guess(guess: &String, dictionary: &Vec<String>, history: &Vec<String>) -> (r: Result<(), RejectionReason>)
    ensures
        r == check_outcome(guess@, dictionary.deep_view(), history.deep_view()),
{
    let r = validate_alphabetic(guess);
    if r.is_err() {
        return r;
    }
    let r = validate_word_length(guess);
    if r.is_err() {
        return r;
    }
    let r = validate_in_dictionary(guess, dictionary);
    if r.is_err() {
        return r;
    }
    validate_previously_guessed(guess, history)
}

/// Lower-cases a candidate and checks it; on success returns the normalized guess.
pub fn validate(candidate: &str, dictionary: &Vec<String>, history: &Vec<String>) -> (r: Result<String, RejectionReason>)
    ensures
        match r {
            Ok(s) => validation_outcome(candidate@, dictionary.deep_view(), history.deep_view()) == Ok::<Seq<char>, RejectionReason>(s@),
            Err(e) => validation_outcome(candidate@, dictionary.deep_view(), history.deep_view()) == Err::<Seq<char>, RejectionReason>(e),
        },
{
    let guess = to_lower(candidate);
    match check_guess(&guess, dictionary, history) {
        Ok(()) => Ok(guess),
        Err(e) => Err(e),
    }
}

/// The first failing check decides: a guess with a non-letter is rejected as
/// such whatever its length; one of the wrong length whatever the dictionary
/// holds; one outside the dictionary whatever the history holds.
pub proof fn lemma_first_failure_wins(guess: Seq<char>, dictionary: Seq<Seq<char>>, history: Seq<Seq<char>>)
    ensures
        !all_alphabetic(guess) ==> check_outcome(guess, dictionary, history)
            == Err::<(), RejectionReason>(RejectionReason::NonAlphabetic),
        all_alphabetic(guess) && guess.len() != WORD_LENGTH ==> check_outcome(guess, dictionary, history)
            == Err::<(), RejectionReason>(RejectionReason::WrongLength(guess.len() as usize)),
        all_alphabetic(guess) && guess.len() == WORD_LENGTH && !dictionary.contains(guess)
            ==> check_outcome(guess, dictionary, history)
            == Err::<(), RejectionReason>(RejectionReason::NotInDictionary),
{
}

/// Two candidates that lower-case to the same text are validated alike,
/// whatever their case.
pub proof fn lemma_case_insensitive(a: Seq<char>, b: Seq<char>, dictionary: Seq<Seq<char>>, history: Seq<Seq<char>>)
    requires
        lower_of(a) == lower_of(b),
    ensures
        validation_outcome(a, dictionary, history) == validation_outcome(b, dictionary, history),
{
}

/// A rejection changes neither dictionary nor history, so validating the same
/// guess again gives the same rejection.
pub proof fn lemma_rejection_is_stable(guess: Seq<char>, dictionary: Seq<Seq<char>>, history: Seq<Seq<char>>)
    requires
        check_outcome(guess, dictionary, history) is Err,
    ensures
        ({
            let history_after = if check_outcome(guess, dictionary, history) is Ok {
                history.push(guess)
            } else {
                history
            };
            check_outcome(guess, dictionary, history_after) == check_outcome(guess, dictionary, history)
        }),
{
}

/// For a guess that passes the other checks, the repetition check fires exactly
/// when the history holds it; and a word once in the history stays there as
/// accepted guesses are appended.
pub proof fn lemma_history_rejects_exactly_its_words(guess: Seq<char>, dictionary: Seq<Seq<char>>, history: Seq<Seq<char>>, accepted: Seq<char>)
    requires
        all_alphabetic(guess),
        guess.len() == WORD_LENGTH,
        dictionary.contains(guess),
    ensures
        check_outcome(guess, dictionary, history)
            == Err::<(), RejectionReason>(RejectionReason::AlreadyGuessed) <==> history.contains(guess),
        history.contains(guess) ==> history.push(accepted).contains(guess),
        history.push(accepted).contains(guess) <==> (history.contains(guess) || accepted == guess),
{
    let h2 = history.push(accepted);
    if history.contains(guess) {
        let i = choose|i: int| 0 <= i < history.len() && history[i] == guess;
        assert(h2[i] == guess);
    }
    if accepted == guess {
        assert(h2[history.len() as int] == guess);
    }
    if h2.contains(guess) {
        let i = choose|i: int| 0 <= i < h2.len() && h2[i] == guess;
        if i < history.len() {
            assert(history[i] == guess);
        }
    }
}

} // verus!
