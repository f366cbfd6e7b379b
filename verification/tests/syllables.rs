use quickcount::syllable::count_syllables;

#[test]
fn no_vowel_class_token_still_has_one_syllable() {
    assert_eq!(count_syllables("xyz"), 1);
    assert_eq!(count_syllables("bcdfg"), 1);
    assert_eq!(count_syllables("..."), 1);
}

#[test]
fn simple_words() {
    assert_eq!(count_syllables("a"), 1);
    assert_eq!(count_syllables("cat"), 1);
    assert_eq!(count_syllables("hello"), 2);
}

#[test]
fn estimation_is_case_insensitive() {
    assert_eq!(count_syllables("HELLO"), count_syllables("hello"));
    assert_eq!(count_syllables("Beautiful"), count_syllables("beautiful"));
}

#[test]
fn triphthong_collapses_before_diphthong() {
    // "beautiful" trims to "eautifu", "eau" collapses to "a", leaving the
    // vowel runs "a", "i", "u".
    assert_eq!(count_syllables("beautiful"), 3);
    // "queueing" trims to "ueuei"; "ueu" collapses, then "ei" collapses, and
    // the leftovers "a" and "i" are adjacent: one run.
    assert_eq!(count_syllables("queueing"), 1);
}

#[test]
fn vowel_runs_collapse_pairwise() {
    // "aaaa": the first three collapse to 'a', the leftover joins it, and
    // the pair collapses again.
    assert_eq!(count_syllables("aaaa"), 1);
    // "idea": "ea" collapses, leaving runs "i" and "a".
    assert_eq!(count_syllables("idea"), 2);
}

#[test]
fn y_counts_as_vowel_class_but_never_collapses() {
    assert_eq!(count_syllables("rhythm"), 1);
    // "anyway" has no strict-vowel pair to collapse; its vowel-class runs
    // are "a", "y" and "ay".
    assert_eq!(count_syllables("anyway"), 3);
}
