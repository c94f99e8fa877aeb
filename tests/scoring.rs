use curdle::scoring::{chars_of, count_occurrences, unmatched_answer_letters};
use curdle::{score, Verdict};

use Verdict::{Absent, Exact, Present};

#[test]
fn duplicate_letters_follow_surplus_credit() {
    let (won, verdicts) = score("mamma", "llama");
    assert!(!won);
    assert_eq!(verdicts, vec![Absent, Present, Absent, Exact, Exact]);
}

#[test]
fn same_word_is_an_exact_win() {
    let (won, verdicts) = score("apple", "apple");
    assert!(won);
    assert_eq!(verdicts, vec![Exact; 5]);
}

#[test]
fn repeated_guess_letter_with_single_answer_occurrence() {
    // the answer's second 'b' is an exact match; its first is left for the guess's first 'b'
    let (won, verdicts) = score("babes", "abbey");
    assert!(!won);
    assert_eq!(verdicts, vec![Present, Present, Exact, Exact, Absent]);
}

#[test]
fn letter_consumed_by_exact_match_gives_no_credit() {
    assert_eq!(score("eerie", "crane").1, vec![Absent, Absent, Present, Absent, Exact]);
    assert_eq!(score("ppppp", "apple").1, vec![Absent, Exact, Exact, Absent, Absent]);
}

#[test]
fn leftmost_position_takes_the_credit() {
    // one 'l' in the answer: the first 'l' of the guess gets it
    assert_eq!(score("llama", "world").1, vec![Present, Absent, Absent, Absent, Absent]);
    // two spare 'l's: both get one
    assert_eq!(score("llama", "hello").1, vec![Present, Present, Absent, Absent, Absent]);
}

#[test]
fn scenario_guess_against_answer() {
    let (won, verdicts) = score("angle", "apple");
    assert!(!won);
    assert_eq!(verdicts, vec![Exact, Absent, Absent, Exact, Exact]);
}

#[test]
fn empty_words_score_as_equal() {
    let (won, verdicts) = score("", "");
    assert!(won);
    assert!(verdicts.is_empty());
}

#[test]
fn chars_and_counts() {
    let cs = chars_of("héllo");
    assert_eq!(cs, vec!['h', 'é', 'l', 'l', 'o']);
    assert_eq!(count_occurrences(&cs, 'l'), 2);
    assert_eq!(count_occurrences(&cs, 'z'), 0);
}

#[test]
fn unmatched_letters_of_the_answer() {
    let g = chars_of("angle");
    let a = chars_of("apple");
    assert_eq!(unmatched_answer_letters(&g, &a), vec!['p', 'p']);
}
