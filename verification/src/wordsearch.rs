//! The word-elimination guessing game: a binary-search-style narrowing of a
//! candidate word list, driven by lexicographic feedback on midpoint guesses,
//! with an optional Hamming-distance filter.

use vstd::prelude::*;
use vstd::string::StrSliceExecFns;
use vstd::string::StringExecFns;

verus! {

/// The character of `s` at position `i`, right-padded with spaces.
pub open spec fn padded_char(s: Seq<char>, i: int) -> char {
    if 0 <= i < s.len() {
        s[i]
    } else {
        ' '
    }
}

/// How many of the first `k` positions differ between `a` and `b`, both
/// right-padded with spaces.
pub open spec fn hamming_count(a: Seq<char>, b: Seq<char>, k: int) -> nat
    decreases k,
{
    if k <= 0 {
        0
    } else {
        hamming_count(a, b, k - 1) + if padded_char(a, k - 1) != padded_char(b, k - 1) {
            1nat
        } else {
            0nat
        }
    }
}

/// The Hamming distance between `a` and `b`: the shorter one is right-padded
/// with spaces to equal length and differing positions are counted.
pub open spec fn spec_hamming(a: Seq<char>, b: Seq<char>) -> nat {
    if a.len() >= b.len() {
        hamming_count(a, b, a.len() as int)
    } else {
        hamming_count(a, b, b.len() as int)
    }
}

/// `i` is the first index at which `w` occurs in `words`.
pub open spec fn first_match(words: Seq<Seq<char>>, w: Seq<char>, i: int) -> bool {
    &&& 0 <= i < words.len()
    &&& words[i] == w
    &&& forall|j: int| 0 <= j < i ==> words[j] != w
}

/// Whether a candidate `x` survives the optional distance filter around `w`.
pub open spec fn survives(w: Seq<char>, distance: Option<usize>, x: Seq<char>) -> bool {
    match distance {
        Option::None => true,
        Option::Some(d) => spec_hamming(w, x) == d as nat,
    }
}

/// The subsequence of `words` that survives the distance filter, in order.
pub open spec fn filter_surviving(words: Seq<Seq<char>>, w: Seq<char>, distance: Option<usize>) -> Seq<
    Seq<char>,
>
    decreases words.len(),
{
    if words.len() == 0 {
        Seq::empty()
    } else {
        filter_surviving(words.drop_last(), w, distance) + if survives(w, distance, words.last()) {
            seq![words.last()]
        } else {
            Seq::empty()
        }
    }
}

/// The candidate list after a lower-bound report on `w`: everything strictly
/// after the first occurrence of `w`, filtered by distance; unchanged when `w`
/// is not a candidate.
pub open spec fn narrowed_lower(
    possible: Seq<Seq<char>>,
    w: Seq<char>,
    distance: Option<usize>,
) -> Seq<Seq<char>> {
    if exists|i: int| first_match(possible, w, i) {
        let i = choose|i: int| first_match(possible, w, i);
        filter_surviving(possible.subrange(i + 1, possible.len() as int), w, distance)
    } else {
        possible
    }
}

/// The candidate list after an upper-bound report on `w`: everything strictly
/// before the first occurrence of `w`, filtered by distance; unchanged when
/// `w` is not a candidate.
pub open spec fn narrowed_upper(
    possible: Seq<Seq<char>>,
    w: Seq<char>,
    distance: Option<usize>,
) -> Seq<Seq<char>> {
    if exists|i: int| first_match(possible, w, i) {
        let i = choose|i: int| first_match(possible, w, i);
        filter_surviving(possible.subrange(0, i), w, distance)
    } else {
        possible
    }
}

/// The filtered list is never longer than the input list.
pub proof fn lemma_filter_surviving_len(words: Seq<Seq<char>>, w: Seq<char>, distance: Option<usize>)
    ensures
        filter_surviving(words, w, distance).len() <= words.len(),
    decreases words.len(),
{
    if words.len() > 0 {
        lemma_filter_surviving_len(words.drop_last(), w, distance);
    }
}

/// The first match index is unique.
pub proof fn lemma_first_match_unique(words: Seq<Seq<char>>, w: Seq<char>, i: int, j: int)
    requires
        first_match(words, w, i),
        first_match(words, w, j),
    ensures
        i == j,
{
}

/// Per-channel state of the word-elimination game: the full dictionary and
/// the remaining candidates.
pub struct WordSearch {
    dictionary: Vec<String>,
    possible: Vec<String>,
}

impl WordSearch {
    /// The views of the remaining candidate words, in order.
    pub closed spec fn spec_possible(&self) -> Seq<Seq<char>> {
        self.possible.deep_view()
    }

    /// The views of the full dictionary, in order.
    pub closed spec fn spec_dictionary(&self) -> Seq<Seq<char>> {
        self.dictionary.deep_view()
    }

    /// A fresh game over the built-in dictionary, with every word a candidate.
    pub fn new() -> (r: Self)
        ensures
            r.spec_dictionary().len() > 0,
            r.spec_possible() == r.spec_dictionary(),
    {
        let words = vec![
            String::from_str("apple"),
            String::from_str("bird"),
            String::from_str("cat"),
            String::from_str("dart"),
            String::from_str("echo"),
            String::from_str("fern"),
            String::from_str("gold"),
            String::from_str("hill"),
            String::from_str("iris"),
            String::from_str("jade"),
            String::from_str("kite"),
            String::from_str("lark"),
            String::from_str("mint"),
            String::from_str("nest"),
            String::from_str("oak"),
            String::from_str("pine"),
            String::from_str("quill"),
            String::from_str("rose"),
            String::from_str("sage"),
            String::from_str("tide"),
            String::from_str("umber"),
            String::from_str("vine"),
            String::from_str("wren"),
            String::from_str("yarn"),
        ];
        Self::with_words(words)
    }

    /// A fresh game over a caller-supplied dictionary.
    pub fn with_words(words: Vec<String>) -> (r: Self)
        ensures
            r.spec_dictionary() == words.deep_view(),
            r.spec_possible() == words.deep_view(),
    {
        let possible = clone_words(&words);
        WordSearch { dictionary: words, possible }
    }

    /// How many candidate words remain.
    pub fn remaining(&self) -> (r: usize)
        ensures
            r == self.spec_possible().len(),
    {
        self.possible.len()
    }

    /// Restore the candidate list to the full dictionary.
    pub fn reset(&mut self)
        ensures
            final(self).spec_dictionary() == old(self).spec_dictionary(),
            final(self).spec_possible() == old(self).spec_dictionary(),
    {
        self.possible = clone_words(&self.dictionary);
    }

    /// The midpoint candidate, or `None` when no candidate remains.
    pub fn guess(&self) -> (r: Option<String>)
        ensures
            match r {
                Option::Some(g) => {
                    &&& self.spec_possible().len() > 0
                    &&& g@ == self.spec_possible()[self.spec_possible().len() as int / 2]
                },
                Option::None => self.spec_possible().len() == 0,
            },
    {
        if self.possible.len() == 0 {
            None
        } else {
            let mid = self.possible.len() / 2;
            Some(self.possible[mid].clone())
        }
    }

    /// The index of the first candidate equal to `word`, if any.
    fn find_first(&self, word: &str) -> (r: Option<usize>)
        ensures
            match r {
                Option::Some(i) => first_match(self.possible.deep_view(), word@, i as int),
                Option::None => forall|i: int| !first_match(self.possible.deep_view(), word@, i),
            },
    {
        let n = self.possible.len();
        let mut i: usize = 0;
        while i < n
            invariant
                n == self.possible@.len(),
                i <= n,
                forall|j: int| 0 <= j < i ==> self.possible.deep_view()[j] != word@,
            decreases n - i,
        {
            if crate::text::str_eq(self.possible[i].as_str(), word) {
                return Some(i);
            }
            i = i + 1;
        }
        None
    }

    /// Keep only the candidates strictly after the first occurrence of
    /// `word`, filtered to Hamming distance `distance` from `word` when one
    /// is given. A narrowing step never grows the candidate list, and
    /// strictly shrinks it when `word` was a candidate.
    pub fn set_lower(&mut self, word: &str, distance: Option<usize>)
        ensures
            final(self).spec_dictionary() == old(self).spec_dictionary(),
            final(self).spec_possible() == narrowed_lower(
                old(self).spec_possible(),
                word@,
                distance,
            ),
            final(self).spec_possible().len() <= old(self).spec_possible().len(),
            (exists|i: int| first_match(old(self).spec_possible(), word@, i))
                ==> final(self).spec_possible().len() < old(self).spec_possible().len(),
    {
        let ghost dv = self.possible.deep_view();
        match self.find_first(word) {
            None => {
            },
            Some(i) => {
                let ghost pivot = choose|p: int| first_match(dv, word@, p);
                proof {
                    lemma_first_match_unique(dv, word@, i as int, pivot);
                }
                let n = self.possible.len();
                let mut kept: Vec<String> = Vec::new();
                let mut j: usize = i + 1;
                while j < n
                    invariant
                        n == self.possible@.len(),
                        dv == self.possible.deep_view(),
                        i < n,
                        i + 1 <= j <= n,
                        kept.deep_view() == filter_surviving(
                            dv.subrange(i + 1, j as int),
                            word@,
                            distance,
                        ),
                    decreases n - j,
                {
                    let keep = match distance {
                        None => true,
                        Some(d) => {
                            Self::hamming_distance(word, self.possible[j].as_str()) == d
                        },
                    };
                    proof {
                        assert(dv.subrange(i + 1, j + 1).drop_last() =~= dv.subrange(
                            i + 1,
                            j as int,
                        ));
                        assert(dv.subrange(i + 1, j + 1).last() == dv[j as int]);
                    }
                    if keep {
                        kept.push(self.possible[j].clone());
                        proof {
                            assert(kept.deep_view() =~= filter_surviving(
                                dv.subrange(i + 1, j + 1),
                                word@,
                                distance,
                            ));
                        }
                    } else {
                        proof {
                            assert(kept.deep_view() =~= filter_surviving(
                                dv.subrange(i + 1, j + 1),
                                word@,
                                distance,
                            ));
                        }
                    }
                    j = j + 1;
                }
                proof {
                    assert(dv.subrange(i + 1, n as int) =~= dv.subrange(i + 1, dv.len() as int));
                    lemma_filter_surviving_len(dv.subrange(i + 1, dv.len() as int), word@, distance);
                }
                self.possible = kept;
            },
        }
    }

    /// Keep only the candidates strictly before the first occurrence of
    /// `word`, filtered to Hamming distance `distance` from `word` when one
    /// is given. A narrowing step never grows the candidate list, and
    /// strictly shrinks it when `word` was a candidate.
    pub fn set_upper(&mut self, word: &str, distance: Option<usize>)
        ensures
            final(self).spec_dictionary() == old(self).spec_dictionary(),
            final(self).spec_possible() == narrowed_upper(
                old(self).spec_possible(),
                word@,
                distance,
            ),
            final(self).spec_possible().len() <= old(self).spec_possible().len(),
            (exists|i: int| first_match(old(self).spec_possible(), word@, i))
                ==> final(self).spec_possible().len() < old(self).spec_possible().len(),
    {
        let ghost dv = self.possible.deep_view();
        match self.find_first(word) {
            None => {
            },
            Some(i) => {
                let ghost pivot = choose|p: int| first_match(dv, word@, p);
                proof {
                    lemma_first_match_unique(dv, word@, i as int, pivot);
                }
                let mut kept: Vec<String> = Vec::new();
                let mut j: usize = 0;
                while j < i
                    invariant
                        i < self.possible@.len(),
                        dv == self.possible.deep_view(),
                        j <= i,
                        kept.deep_view() == filter_surviving(
                            dv.subrange(0, j as int),
                            word@,
                            distance,
                        ),
                    decreases i - j,
                {
                    let keep = match distance {
                        None => true,
                        Some(d) => {
                            Self::hamming_distance(word, self.possible[j].as_str()) == d
                        },
                    };
                    proof {
                        assert(dv.subrange(0, j + 1).drop_last() =~= dv.subrange(0, j as int));
                        assert(dv.subrange(0, j + 1).last() == dv[j as int]);
                    }
                    if keep {
                        kept.push(self.possible[j].clone());
                        proof {
                            assert(kept.deep_view() =~= filter_surviving(
                                dv.subrange(0, j + 1),
                                word@,
                                distance,
                            ));
                        }
                    } else {
                        proof {
                            assert(kept.deep_view() =~= filter_surviving(
                                dv.subrange(0, j + 1),
                                word@,
                                distance,
                            ));
                        }
                    }
                    j = j + 1;
                }
                proof {
                    lemma_filter_surviving_len(dv.subrange(0, i as int), word@, distance);
                }
                self.possible = kept;
            },
        }
    }

    /// The Hamming distance between two words: the shorter is right-padded
    /// with spaces to equal length, then differing positions are counted.
    pub fn hamming_distance(word1: &str, word2: &str) -> (r: usize)
        ensures
            r == spec_hamming(word1@, word2@),
    {
        let n1 = word1.unicode_len();
        let n2 = word2.unicode_len();
        let n = if n1 >= n2 {
            n1
        } else {
            n2
        };
        let mut count: usize = 0;
        let mut k: usize = 0;
        while k < n
            invariant
                n1 == word1@.len(),
                n2 == word2@.len(),
                n == if n1 >= n2 {
                    n1
                } else {
                    n2
                },
                k <= n,
                count <= k,
                count == hamming_count(word1@, word2@, k as int),
            decreases n - k,
        {
            let c1 = if k < n1 {
                word1.get_char(k)
            } else {
                ' '
            };
            let c2 = if k < n2 {
                word2.get_char(k)
            } else {
                ' '
            };
            if c1 != c2 {
                count = count + 1;
            }
            k = k + 1;
        }
        count
    }
}

/// Copy a word list, contents preserved.
fn clone_words(words: &Vec<String>) -> (r: Vec<String>)
    ensures
        r.deep_view() == words.deep_view(),
        r@.len() == words@.len(),
{
    let n = words.len();
    let mut out: Vec<String> = Vec::new();
    let mut i: usize = 0;
    while i < n
        invariant
            n == words@.len(),
            i <= n,
            out@.len() == i,
            forall|j: int| 0 <= j < i ==> out@[j]@ == words@[j]@,
        decreases n - i,
    {
        let w = words[i].clone();
        proof {
            assert(w == words@[i as int]);
        }
        out.push(w);
        i = i + 1;
    }
    proof {
        assert(out.deep_view() =~= words.deep_view());
    }
    out
}

} // verus!
