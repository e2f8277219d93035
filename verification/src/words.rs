//! Splitting a line of text into words.
//!
//! A word is a maximal run of non-blank characters. [`split_words`] returns
//! the words of a line in order, with every blank dropped; [`split_from`]
//! says exactly which words those are.

use vstd::prelude::*;

verus! {

/// A blank: one of the ASCII whitespace characters words are split on.
pub open spec fn is_blank(c: char) -> bool {
    c == ' ' || c == '\t' || c == '\n' || c == '\r'
}

/// Whether `c` is a blank, decided at run time.
pub fn is_blank_char(c: char) -> (r: bool)
    ensures
        r == is_blank(c),
{
    c == ' ' || c == '\t' || c == '\n' || c == '\r'
}

/// The index just past the word starting at `i`: the first position at or
/// after `i` that holds a blank, or the end of `s` if none does.
pub open spec fn word_end(s: Seq<char>, i: int) -> int
    decreases s.len() - i,
{
    if i < 0 || i >= s.len() || is_blank(s[i]) {
        i
    } else {
        word_end(s, i + 1)
    }
}

/// The end of a word lies between its start and the end of the text,
/// everything before it is non-blank, and it stands on a blank unless it
/// is the end of the text.
pub proof fn lemma_word_end_bounds(s: Seq<char>, i: int)
    requires
        0 <= i <= s.len(),
    ensures
        i <= word_end(s, i) <= s.len(),
        forall|k: int| i <= k < word_end(s, i) ==> !is_blank(s[k]),
        word_end(s, i) < s.len() ==> is_blank(s[word_end(s, i)]),
    decreases s.len() - i,
{
    if i < s.len() && !is_blank(s[i]) {
        lemma_word_end_bounds(s, i + 1);
    }
}

/// A position with only non-blanks before it, standing on a blank or at
/// the end of the text, is the end of the word: the end is unique.
pub proof fn lemma_word_end_is(s: Seq<char>, i: int, j: int)
    requires
        0 <= i <= j <= s.len(),
        forall|k: int| i <= k < j ==> !is_blank(s[k]),
        j == s.len() || is_blank(s[j]),
    ensures
        word_end(s, i) == j,
    decreases j - i,
{
    if i < j {
        lemma_word_end_is(s, i + 1, j);
    }
}

/// The words of `s` from position `i` on: each maximal run of non-blank
/// characters, in order.
pub open spec fn split_from(s: Seq<char>, i: int) -> Seq<Seq<char>>
    decreases s.len() - i,
        via split_from_decreases
{
    if i < 0 || i >= s.len() {
        Seq::empty()
    } else if is_blank(s[i]) {
        split_from(s, i + 1)
    } else {
        seq![s.subrange(i, word_end(s, i))] + split_from(s, word_end(s, i))
    }
}

#[via_fn]
proof fn split_from_decreases(s: Seq<char>, i: int) {
    if 0 <= i && i < s.len() && !is_blank(s[i]) {
        lemma_word_end_bounds(s, i);
    }
}

/// The character sequences a vector of strings holds.
pub open spec fn word_views(ws: Seq<String>) -> Seq<Seq<char>> {
    ws.map_values(|w: String| w@)
}

/// Split `s` into its words: the maximal runs of non-blank characters,
/// in order, with every blank dropped.
pub fn split_words(s: &str) -> (words: Vec<String>)
    ensures
        word_views(words@) == split_from(s@, 0),
{
    let n = s.unicode_len();
    let mut words: Vec<String> = Vec::new();
    let mut i: usize = 0;
    proof {
        assert(word_views(words@) + split_from(s@, 0) =~= split_from(s@, 0));
    }
    while i < n
        invariant
            n == s@.len(),
            i <= n,
            split_from(s@, 0) == word_views(words@) + split_from(s@, i as int),
        decreases n - i,
    {
        if is_blank_char(s.get_char(i)) {
            proof {
                assert(split_from(s@, i as int) == split_from(s@, i + 1));
            }
            i += 1;
        } else {
            let start = i;
            let mut j = i + 1;
            loop
                invariant
                    n == s@.len(),
                    start < j <= n,
                    forall|k: int| start <= k < j ==> !is_blank(s@[k]),
                ensures
                    start < j <= n,
                    forall|k: int| start <= k < j ==> !is_blank(s@[k]),
                    j == n || is_blank(s@[j as int]),
                decreases n - j,
            {
                if j == n {
                    break;
                }
                if is_blank_char(s.get_char(j)) {
                    break;
                }
                j += 1;
            }
            proof {
                lemma_word_end_is(s@, start as int, j as int);
            }
            let w = s.substring_char(start, j);
            let ghost pre = words@;
            words.push(w.to_owned());
            proof {
                assert(word_views(words@) =~= word_views(pre) + seq![s@.subrange(start as int, j as int)]);
                assert(split_from(s@, start as int) == seq![s@.subrange(start as int, j as int)]
                    + split_from(s@, j as int));
                assert(word_views(pre) + (seq![s@.subrange(start as int, j as int)] + split_from(
                    s@,
                    j as int,
                )) =~= (word_views(pre) + seq![s@.subrange(start as int, j as int)]) + split_from(
                    s@,
                    j as int,
                ));
            }
            i = j;
        }
    }
    proof {
        assert(word_views(words@) + split_from(s@, i as int) =~= word_views(words@));
    }
    words
}

/// Splits one fixed line into its words: the line holds the same word
/// three times over, separated by single spaces.
pub fn test_fqmc() -> (words: Vec<String>)
    ensures
        word_views(words@) == split_from("asdf asdf asdf"@, 0),
{
    let line = "asdf asdf asdf";
    split_words(line)
}

} // verus!
