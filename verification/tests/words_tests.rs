use searchgen::words::{split_words, test_fqmc};

#[test]
fn fixed_line_splits_into_three_words() {
    let words = test_fqmc();
    assert_eq!(
        words,
        vec!["asdf".to_string(), "asdf".to_string(), "asdf".to_string()],
    );
}

#[test]
fn splits_on_runs_of_blanks() {
    assert_eq!(
        split_words("one two  three"),
        vec!["one".to_string(), "two".to_string(), "three".to_string()],
    );
}

#[test]
fn empty_line_has_no_words() {
    assert!(split_words("").is_empty());
}

#[test]
fn blanks_alone_hold_no_words() {
    assert!(split_words(" \t\r\n ").is_empty());
}

#[test]
fn leading_and_trailing_blanks_are_dropped() {
    assert_eq!(
        split_words("  hi there "),
        vec!["hi".to_string(), "there".to_string()],
    );
}

#[test]
fn single_word_line() {
    assert_eq!(split_words("word"), vec!["word".to_string()]);
}
