//! Searching a text for a pattern.
//!
//! A [`Pattern`] is a value that knows how to locate itself inside a sequence
//! of characters. Each pattern variant fixes, through the associated type
//! [`Pattern::Match`], the one kind of match result it reports, and pins the
//! result of every search through the spec function [`Pattern::search_spec`]:
//! searching is a pure function of the pattern and the text.

use vstd::prelude::*;

verus! {

/// A value that can be searched for inside a sequence of characters.
///
/// Each implementor declares one match-result type and one spec function
/// that fully determines the outcome of a search, so `search` is a pure
/// function of `(pattern, text)`.
pub trait Pattern {
    /// The kind of match this pattern reports.
    type Match;

    /// The result every search for this pattern in `text` must return.
    spec fn search_spec(&self, text: Seq<char>) -> Option<Self::Match>;

    /// Locate the first occurrence of this pattern in `text`.
    fn search(&self, text: &str) -> (r: Option<Self::Match>)
        ensures
            r == self.search_spec(text@),
    ;
}

/// `i` is the position of the first character of `text` equal to `p`:
/// `p` stands at `i`, and nowhere earlier.
pub open spec fn hit_at(p: char, text: Seq<char>, i: int) -> bool {
    &&& 0 <= i < text.len()
    &&& text[i] == p
    &&& forall|j: int| 0 <= j < i ==> text[j] != p
}

/// What a search for the character `p` in `text` returns: the index of the
/// first character equal to `p`, or `None` when no character of `text` is `p`.
pub open spec fn char_search_spec(p: char, text: Seq<char>) -> Option<usize> {
    if exists|i: int| hit_at(p, text, i) {
        Some((choose|i: int| hit_at(p, text, i)) as usize)
    } else {
        None
    }
}

/// At most one position is the first occurrence.
pub proof fn lemma_hit_unique(p: char, text: Seq<char>, i: int, k: int)
    requires
        hit_at(p, text, i),
        hit_at(p, text, k),
    ensures
        i == k,
{
    if i < k {
        assert(text[i] != p);
    }
    if k < i {
        assert(text[k] != p);
    }
}

/// Searching a text for a single character: the match is the character
/// index (not the byte offset) of its first occurrence.
impl Pattern for char {
    type Match = usize;

    open spec fn search_spec(&self, text: Seq<char>) -> Option<usize> {
        char_search_spec(*self, text)
    }

    fn search(&self, text: &str) -> (r: Option<usize>) {
        let n = text.unicode_len();
        let mut i: usize = 0;
        while i < n
            invariant
                n == text@.len(),
                i <= n,
                forall|j: int| 0 <= j < i ==> text@[j] != *self,
            decreases n - i,
        {
            if text.get_char(i) == *self {
                proof {
                    assert(hit_at(*self, text@, i as int));
                    let k = choose|k: int| hit_at(*self, text@, k);
                    lemma_hit_unique(*self, text@, i as int, k);
                }
                return Some(i);
            }
            i += 1;
        }
        proof {
            assert(forall|k: int| !hit_at(*self, text@, k));
        }
        None
    }
}

/// Law: in a non-empty text whose first character equals the pattern,
/// the search finds position 0.
pub proof fn lemma_search_first_char(p: char, text: Seq<char>)
    requires
        text.len() > 0,
        text[0] == p,
    ensures
        char_search_spec(p, text) == Some(0usize),
{
    assert(hit_at(p, text, 0));
    let k = choose|k: int| hit_at(p, text, k);
    lemma_hit_unique(p, text, 0, k);
}

/// Law: when no character of the text equals the pattern, the search
/// returns `None`.
pub proof fn lemma_search_absent(p: char, text: Seq<char>)
    requires
        forall|j: int| 0 <= j < text.len() ==> text[j] != p,
    ensures
        char_search_spec(p, text) is None,
{
    assert(forall|k: int| !hit_at(p, text, k));
}

/// Law: a position the search reports indexes a character of the text
/// equal to the pattern.
pub proof fn lemma_search_position_matches(p: char, text: Seq<char>, i: usize)
    requires
        text.len() <= usize::MAX,
        char_search_spec(p, text) == Some(i),
    ensures
        i < text.len(),
        text[i as int] == p,
{
    let k = choose|k: int| hit_at(p, text, k);
    assert(hit_at(p, text, k));
    assert(k == i as int);
}

/// Law: searching is pure. The contract of [`Pattern::search`] pins its
/// result to `search_spec`, a function of the pattern and the text alone,
/// so two searches with identical inputs return identical results.
pub proof fn lemma_search_deterministic<P: Pattern>(
    p: &P,
    text: Seq<char>,
    r1: Option<P::Match>,
    r2: Option<P::Match>,
)
    requires
        r1 == p.search_spec(text),
        r2 == p.search_spec(text),
    ensures
        r1 == r2,
{
}

} // verus!
