use searchgen::pattern::Pattern;

#[test]
fn finds_first_char() {
    assert_eq!('a'.search("asdf asdf asdf"), Some(0));
}

#[test]
fn absent_char_is_none() {
    assert_eq!('x'.search("asdf asdf asdf"), None);
}

#[test]
fn finds_later_char() {
    assert_eq!('f'.search("asdf asdf asdf"), Some(3));
}

#[test]
fn empty_text_is_none() {
    assert_eq!('a'.search(""), None);
}

#[test]
fn match_on_last_char_only() {
    assert_eq!('q'.search("abcq"), Some(3));
}

#[test]
fn first_of_several_occurrences_wins() {
    assert_eq!('s'.search("asdf asdf asdf"), Some(1));
}

#[test]
fn position_counts_characters_not_bytes() {
    // 'é' takes two bytes; the match is still the character index.
    assert_eq!('o'.search("héllo"), Some(4));
}

#[test]
fn search_is_repeatable() {
    assert_eq!('d'.search("asdf asdf asdf"), 'd'.search("asdf asdf asdf"));
    assert_eq!('x'.search("asdf asdf asdf"), 'x'.search("asdf asdf asdf"));
}
