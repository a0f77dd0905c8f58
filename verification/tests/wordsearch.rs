//! Tests of the word-elimination game: midpoint guessing, narrowing, the
//! Hamming-distance filter, and resetting.

use oxbow::wordsearch::WordSearch;

fn words(list: &[&str]) -> Vec<String> {
    list.iter().map(|w| w.to_string()).collect()
}

#[test]
fn hamming_distance_equal_words() {
    assert_eq!(WordSearch::hamming_distance("cat", "cat"), 0);
}

#[test]
fn hamming_distance_one_substitution() {
    assert_eq!(WordSearch::hamming_distance("cat", "bat"), 1);
}

#[test]
fn hamming_distance_pads_shorter_word() {
    // "a" is padded to "a  ": positions 2 and 3 differ from "abc".
    assert_eq!(WordSearch::hamming_distance("a", "abc"), 2);
    assert_eq!(WordSearch::hamming_distance("abc", "a"), 2);
}

#[test]
fn guess_is_midpoint() {
    let ws = WordSearch::with_words(words(&["ant", "bee", "cow", "dog", "elk"]));
    assert_eq!(ws.guess().as_deref(), Some("cow"));
    assert_eq!(ws.remaining(), 5);
}

#[test]
fn guess_on_even_count() {
    let ws = WordSearch::with_words(words(&["ant", "bee", "cow", "dog"]));
    assert_eq!(ws.guess().as_deref(), Some("cow"));
}

#[test]
fn guess_on_empty_dictionary() {
    let ws = WordSearch::with_words(words(&[]));
    assert_eq!(ws.guess(), None);
    assert_eq!(ws.remaining(), 0);
}

#[test]
fn set_lower_truncates_after_word() {
    let mut ws = WordSearch::with_words(words(&["ant", "bee", "cow", "dog", "elk"]));
    ws.set_lower("cow", None);
    assert_eq!(ws.remaining(), 2);
    assert_eq!(ws.guess().as_deref(), Some("elk"));
}

#[test]
fn set_upper_truncates_before_word() {
    let mut ws = WordSearch::with_words(words(&["ant", "bee", "cow", "dog", "elk"]));
    ws.set_upper("cow", None);
    assert_eq!(ws.remaining(), 2);
    assert_eq!(ws.guess().as_deref(), Some("bee"));
}

#[test]
fn set_lower_with_unknown_word_changes_nothing() {
    let mut ws = WordSearch::with_words(words(&["ant", "bee", "cow"]));
    ws.set_lower("yak", None);
    assert_eq!(ws.remaining(), 3);
    assert_eq!(ws.guess().as_deref(), Some("bee"));
}

#[test]
fn set_lower_with_distance_filters_suffix() {
    // After "cot": "dot" has distance 1, "rug" has distance 3.
    let mut ws = WordSearch::with_words(words(&["ant", "cot", "dot", "rug"]));
    ws.set_lower("cot", Some(1));
    assert_eq!(ws.remaining(), 1);
    assert_eq!(ws.guess().as_deref(), Some("dot"));
}

#[test]
fn set_upper_with_distance_filters_prefix() {
    // Before "dot": "cot" has distance 1, "ant" has distance 3.
    let mut ws = WordSearch::with_words(words(&["ant", "cot", "dot", "rug"]));
    ws.set_upper("dot", Some(1));
    assert_eq!(ws.remaining(), 1);
    assert_eq!(ws.guess().as_deref(), Some("cot"));
}

#[test]
fn narrowing_shrinks_to_nothing_or_one() {
    let mut ws = WordSearch::with_words(words(&["ant", "bee", "cow", "dog", "elk"]));
    let mut before = ws.remaining();
    // Always report "lower" on the current guess: the candidate set strictly
    // shrinks every round until nothing (or one word) is left.
    while let Some(g) = ws.guess() {
        ws.set_lower(&g, None);
        assert!(ws.remaining() < before, "narrowing must strictly shrink");
        before = ws.remaining();
        if ws.remaining() <= 1 {
            break;
        }
    }
    assert!(ws.remaining() <= 1);
}

#[test]
fn reset_restores_full_dictionary() {
    let mut ws = WordSearch::with_words(words(&["ant", "bee", "cow"]));
    ws.set_lower("ant", None);
    assert_eq!(ws.remaining(), 2);
    ws.reset();
    assert_eq!(ws.remaining(), 3);
    assert_eq!(ws.guess().as_deref(), Some("bee"));
}

#[test]
fn built_in_dictionary_is_not_empty() {
    let ws = WordSearch::new();
    assert!(ws.remaining() > 0);
    assert!(ws.guess().is_some());
}
