use quickcount::classify::{EnglishLevel, FogInterpretation, SmogInterpretation};
use quickcount::textstat::{calculate_stats, Ratio};

#[test]
fn empty_input_gives_zeroed_record() {
    let r = calculate_stats("");
    assert_eq!(r.word_count, 0);
    assert_eq!(r.letter_count, 0);
    assert_eq!(r.sentence_count, 0);
    assert_eq!(r.paragraph_count, 0);
    assert_eq!(r.total_word_length, 0);
    assert_eq!(r.average_word_length, Ratio { num: 0, den: 0 });
    assert_eq!(r.average_sentence_length, Ratio { num: 0, den: 0 });
    assert_eq!(r.longest_word, "");
    assert_eq!(r.most_common_word, "");
    assert_eq!(r.unique_word_count, 0);
    assert_eq!(r.total_syllables, 0);
    assert_eq!(r.complex_word_count, 0);
    assert_eq!(r.english_level, EnglishLevel::Basic);
    assert_eq!(r.fog_interpretation, FogInterpretation::BasicEnglish);
    assert_eq!(r.smog_interpretation, SmogInterpretation::BasicEnglish);
}

#[test]
fn whitespace_only_counts_nothing() {
    let r = calculate_stats(" \t\n  \n");
    assert_eq!(r.word_count, 0);
    assert_eq!(r.letter_count, 0);
    assert_eq!(r.paragraph_count, 0);
    assert_eq!(r.longest_word, "");
    assert_eq!(r.most_common_word, "");
}

#[test]
fn hello_world_counts() {
    let r = calculate_stats("Hello world.");
    assert_eq!(r.word_count, 2);
    assert_eq!(r.sentence_count, 1);
    assert_eq!(r.paragraph_count, 1);
    // "Hello" has 5 characters, "world." has 6: the period belongs to its
    // token, so the longest word is "world.".
    assert_eq!(r.longest_word, "world.");
    assert_eq!(r.letter_count, 11);
    assert_eq!(r.total_word_length, 11);
    // average sentence length 2 / 1 = 2.0
    assert_eq!(r.average_sentence_length, Ratio { num: 2, den: 1 });
    // average word length 11 / 2 = 5.5
    assert_eq!(r.average_word_length, Ratio { num: 11, den: 2 });
    // "hello" estimates 2 syllables, "world." 1, so fk = 0.39*2 +
    // 11.8*(3/2) - 15.59 = 2.89: Basic.
    assert_eq!(r.total_syllables, 3);
    assert_eq!(r.complex_word_count, 0);
    assert_eq!(r.english_level, EnglishLevel::Basic);
    assert_eq!(r.fog_interpretation, FogInterpretation::BasicEnglish);
    assert_eq!(r.smog_interpretation, SmogInterpretation::BasicEnglish);
}

#[test]
fn most_common_word_counts_case_folded() {
    let r = calculate_stats("cat cat dog");
    assert_eq!(r.word_count, 3);
    assert_eq!(r.unique_word_count, 2);
    assert_eq!(r.most_common_word, "cat");
}

#[test]
fn folding_merges_differently_cased_tokens() {
    // If tokens were not really lowercased, "CAT" and "cat" would stay
    // distinct and the most common word could not reach a count of two.
    let r = calculate_stats("CAT cat dog");
    assert_eq!(r.unique_word_count, 2);
    assert_eq!(r.most_common_word, "cat");
}

#[test]
fn most_common_tie_goes_to_first_seen() {
    let r = calculate_stats("dog cat dog cat");
    assert_eq!(r.most_common_word, "dog");
}

#[test]
fn two_paragraphs_and_two_sentences() {
    let r = calculate_stats("Para one.\n\nPara two.");
    assert_eq!(r.paragraph_count, 2);
    assert_eq!(r.sentence_count, 2);
    assert_eq!(r.word_count, 4);
}

#[test]
fn ellipsis_counts_three_sentences() {
    let r = calculate_stats("...");
    assert_eq!(r.sentence_count, 3);
    assert_eq!(r.word_count, 1);
    assert_eq!(r.letter_count, 3);
    assert_eq!(r.paragraph_count, 1);
    // A token with no vowel-class characters still estimates one syllable.
    assert_eq!(r.total_syllables, 1);
}

#[test]
fn paragraph_separators_do_not_overlap() {
    // Splitting on "\n\n" is leftmost and non-overlapping: "a\n\n\nb" has
    // segments "a" and "\nb", both non-empty after trimming.
    let r = calculate_stats("a\n\n\nb");
    assert_eq!(r.paragraph_count, 2);
    // Four newlines give a middle segment that trims to nothing.
    let r2 = calculate_stats("a\n\n\n\nb");
    assert_eq!(r2.paragraph_count, 2);
    // A separator alone holds no paragraph.
    let r3 = calculate_stats("\n\n");
    assert_eq!(r3.paragraph_count, 0);
}

#[test]
fn longest_word_tie_goes_to_first_seen() {
    let r = calculate_stats("abc def gh");
    assert_eq!(r.longest_word, "abc");
}

#[test]
fn mixed_terminal_punctuation_counts() {
    let r = calculate_stats("One! Two? Three.");
    assert_eq!(r.sentence_count, 3);
    assert_eq!(r.word_count, 3);
    // average sentence length 3 / 3 = 1.0
    assert_eq!(r.average_sentence_length, Ratio { num: 3, den: 3 });
}

#[test]
fn engine_is_deterministic_on_same_text() {
    let text = "The quick brown fox jumps over the lazy dog.\n\nAgain! Why?";
    let a = calculate_stats(text);
    let b = calculate_stats(text);
    assert_eq!(a.word_count, b.word_count);
    assert_eq!(a.letter_count, b.letter_count);
    assert_eq!(a.sentence_count, b.sentence_count);
    assert_eq!(a.paragraph_count, b.paragraph_count);
    assert_eq!(a.total_word_length, b.total_word_length);
    assert_eq!(a.average_word_length, b.average_word_length);
    assert_eq!(a.average_sentence_length, b.average_sentence_length);
    assert_eq!(a.longest_word, b.longest_word);
    assert_eq!(a.most_common_word, b.most_common_word);
    assert_eq!(a.unique_word_count, b.unique_word_count);
    assert_eq!(a.total_syllables, b.total_syllables);
    assert_eq!(a.complex_word_count, b.complex_word_count);
    assert_eq!(a.english_level, b.english_level);
    assert_eq!(a.fog_interpretation, b.fog_interpretation);
    assert_eq!(a.smog_interpretation, b.smog_interpretation);
}

#[test]
fn no_sentences_guards_sentence_average_and_smog() {
    let r = calculate_stats("just some words without an end");
    assert_eq!(r.sentence_count, 0);
    assert_eq!(r.average_sentence_length.den, 0);
    assert_eq!(r.smog_interpretation, SmogInterpretation::BasicEnglish);
}

#[test]
fn complex_words_raise_every_index() {
    // Each token estimates 3 syllables ("beautiful." trims its period), so
    // all three are complex: syllables 9, complex words 3, one sentence.
    // fk = 0.39*3 + 11.8*3 - 15.59 = 20.98, fog = 0.4*(3 + 100) = 41.2,
    // smog = 1.043*sqrt(3*30) + 3.1291 = 13.02.
    let r = calculate_stats("beautiful beautiful beautiful.");
    assert_eq!(r.word_count, 3);
    assert_eq!(r.sentence_count, 1);
    assert_eq!(r.total_syllables, 9);
    assert_eq!(r.complex_word_count, 3);
    assert_eq!(r.unique_word_count, 2);
    assert_eq!(r.most_common_word, "beautiful");
    assert_eq!(r.longest_word, "beautiful.");
    assert_eq!(r.english_level, EnglishLevel::Advanced);
    assert_eq!(r.fog_interpretation, FogInterpretation::VeryAdvanced);
    assert_eq!(r.smog_interpretation, SmogInterpretation::Advanced);
}

#[test]
fn letter_count_skips_whitespace_only() {
    let r = calculate_stats("a b\tc\nd");
    assert_eq!(r.letter_count, 4);
    assert_eq!(r.word_count, 4);
    assert_eq!(r.total_word_length, 4);
}
