use curdle::text::complete_line;
use curdle::validation::{
    check_guess, contains_string, validate_alphabetic, validate_in_dictionary,
    validate_previously_guessed, validate_word_length,
};
use curdle::{validate, RejectionReason};

fn words(list: &[&str]) -> Vec<String> {
    list.iter().map(|w| w.to_string()).collect()
}

#[test]
fn non_letter_is_reported_before_length() {
    let dict = words(&["apple", "angle", "allow"]);
    assert_eq!(validate("abc1e", &dict, &vec![]), Err(RejectionReason::NonAlphabetic));
    assert_eq!(validate("ab1", &dict, &vec![]), Err(RejectionReason::NonAlphabetic));
    assert_eq!(validate("a pple", &dict, &vec![]), Err(RejectionReason::NonAlphabetic));
}

#[test]
fn wrong_length_carries_the_length() {
    let dict = words(&["apple"]);
    assert_eq!(validate("appl", &dict, &vec![]), Err(RejectionReason::WrongLength(4)));
    assert_eq!(validate("apples", &dict, &vec![]), Err(RejectionReason::WrongLength(6)));
    assert_eq!(validate("éclairs", &dict, &vec![]), Err(RejectionReason::WrongLength(7)));
}

#[test]
fn empty_input_fails_the_length_check() {
    assert_eq!(validate("", &words(&["apple"]), &vec![]), Err(RejectionReason::WrongLength(0)));
}

#[test]
fn unknown_word_is_not_in_dictionary() {
    let dict = words(&["apple"]);
    assert_eq!(validate("zzzzz", &dict, &vec![]), Err(RejectionReason::NotInDictionary));
}

#[test]
fn dictionary_is_checked_before_history() {
    let hist = words(&["zzzzz"]);
    assert_eq!(validate("zzzzz", &words(&["apple"]), &hist), Err(RejectionReason::NotInDictionary));
}

#[test]
fn case_does_not_matter() {
    let dict = words(&["apple", "angle", "allow"]);
    let hist = words(&["angle"]);
    assert_eq!(validate("APPLE", &dict, &hist), validate("apple", &dict, &hist));
    assert_eq!(validate("APPLE", &dict, &hist), Ok("apple".to_string()));
    assert_eq!(validate("ANGLE", &dict, &hist), validate("angle", &dict, &hist));
    assert_eq!(validate("AnGlE", &dict, &hist), Err(RejectionReason::AlreadyGuessed));
}

#[test]
fn rejection_repeats_unchanged() {
    let dict = words(&["apple"]);
    let hist = words(&["apple"]);
    for cand in ["abc1e", "appl", "zzzzz", "apple"] {
        let first = validate(cand, &dict, &hist);
        assert!(first.is_err());
        assert_eq!(validate(cand, &dict, &hist), first);
    }
}

#[test]
fn already_guessed_fires_for_history_only() {
    let dict = words(&["apple", "angle", "allow"]);
    let mut hist: Vec<String> = Vec::new();
    for w in ["apple", "angle"] {
        assert_eq!(validate(w, &dict, &hist), Ok(w.to_string()));
        hist.push(w.to_string());
    }
    assert_eq!(validate("apple", &dict, &hist), Err(RejectionReason::AlreadyGuessed));
    assert_eq!(validate("angle", &dict, &hist), Err(RejectionReason::AlreadyGuessed));
    assert_eq!(validate("allow", &dict, &hist), Ok("allow".to_string()));
}

#[test]
fn single_checks() {
    let dict = words(&["apple"]);
    let g = "apple".to_string();
    assert_eq!(validate_alphabetic(&g), Ok(()));
    assert_eq!(validate_alphabetic(&"ap-le".to_string()), Err(RejectionReason::NonAlphabetic));
    assert_eq!(validate_word_length(&g), Ok(()));
    assert_eq!(validate_word_length(&"ap".to_string()), Err(RejectionReason::WrongLength(2)));
    assert_eq!(validate_in_dictionary(&g, &dict), Ok(()));
    assert_eq!(validate_in_dictionary(&"angle".to_string(), &dict), Err(RejectionReason::NotInDictionary));
    assert_eq!(validate_previously_guessed(&g, &vec![]), Ok(()));
    assert_eq!(validate_previously_guessed(&g, &dict), Err(RejectionReason::AlreadyGuessed));
    assert!(contains_string(&dict, &g));
    assert!(!contains_string(&vec![], &g));
    assert_eq!(check_guess(&g, &dict, &vec![]), Ok(()));
    assert_eq!(check_guess(&"APPLE".to_string(), &dict, &vec![]), Err(RejectionReason::NotInDictionary));
}

#[test]
fn line_terminators_are_stripped() {
    assert_eq!(complete_line("apple\r\n"), Some("apple".to_string()));
    assert_eq!(complete_line("apple\n"), Some("apple".to_string()));
    assert_eq!(complete_line("\n"), Some(String::new()));
    assert_eq!(complete_line("apple"), None);
    assert_eq!(complete_line("apple\r"), None);
    assert_eq!(complete_line(""), None);
}
