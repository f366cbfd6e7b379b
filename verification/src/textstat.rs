//! The text statistics record and the engine that computes it. The engine is
//! a pure, total function of the text: `calculate_stats` returns, for every
//! input, exactly the record that the specification function `stats_of`
//! describes.

use vstd::prelude::*;
use crate::charclass::chars_vec;
use crate::classify::{
    EnglishLevel, FogInterpretation, SmogInterpretation, english_level_of, fog_level_of,
    smog_level_of, classify_english, classify_fog, classify_smog,
};
use crate::counts::{
    letter_count, letter_count_of, paragraph_count, paragraph_count_of, sentence_count,
    sentence_count_of,
};
use crate::fold::{lower_of, fold_case};
use crate::freq::{most_common, most_common_of, unique_count, unique_words};
use crate::syllable::{syllable_estimate, syllables_folded};
use crate::tokenize::{
    lemma_sum_take_le, lemma_tokens_bounds, sum_token_lens, tokenize, tokens_of,
};

verus! {

/// An exact average `num / den`; a denominator of zero means the average is
/// undefined and reads as zero (the guarded-zero policy).
#[derive(Clone, Copy, Debug, PartialEq, Eq, Structural)]
pub struct Ratio {
    pub num: usize,
    pub den: usize,
}

impl View for Ratio {
    type V = (int, int);

    open spec fn view(&self) -> (int, int) {
        (self.num as int, self.den as int)
    }
}

/// The guarded reading of an average is zero.
pub open spec fn reads_as_zero(r: (int, int)) -> bool {
    r.1 == 0 || r.0 == 0
}

/// The statistics record. Counts are exact; the two averages are exact
/// ratios; the syllable and complex-word totals are the exact ingredients of
/// the three readability indices, whose bucket classifications are carried
/// as enums.
#[derive(Debug)]
pub struct TextStats {
    /// Number of whitespace-delimited tokens.
    pub word_count: usize,
    /// Number of non-whitespace characters (punctuation and digits included).
    pub letter_count: usize,
    /// Number of terminal punctuation marks (`.`, `!`, `?`).
    pub sentence_count: usize,
    /// Number of non-empty blocks separated by a blank line.
    pub paragraph_count: usize,
    /// Sum of the character lengths of all tokens.
    pub total_word_length: usize,
    /// `total_word_length / word_count`, zero when there are no words.
    pub average_word_length: Ratio,
    /// `word_count / sentence_count`, zero when there are no sentences.
    pub average_sentence_length: Ratio,
    /// First token of maximal character length; empty without tokens.
    pub longest_word: String,
    /// Case-folded token with the highest frequency, ties to the one seen
    /// first; empty without tokens.
    pub most_common_word: String,
    /// Number of distinct case-folded tokens.
    pub unique_word_count: usize,
    /// Sum of the heuristic syllable estimates of all case-folded tokens.
    pub total_syllables: u128,
    /// Number of tokens whose syllable estimate is at least three.
    pub complex_word_count: usize,
    /// Flesch-Kincaid bucket.
    pub english_level: EnglishLevel,
    /// Gunning Fog bucket.
    pub fog_interpretation: FogInterpretation,
    /// SMOG bucket.
    pub smog_interpretation: SmogInterpretation,
}

/// The mathematical value of a statistics record.
pub ghost struct SpecStats {
    pub word_count: int,
    pub letter_count: int,
    pub sentence_count: int,
    pub paragraph_count: int,
    pub total_word_length: int,
    pub average_word_length: (int, int),
    pub average_sentence_length: (int, int),
    pub longest_word: Seq<char>,
    pub most_common_word: Seq<char>,
    pub unique_word_count: int,
    pub total_syllables: int,
    pub complex_word_count: int,
    pub english_level: EnglishLevel,
    pub fog_interpretation: FogInterpretation,
    pub smog_interpretation: SmogInterpretation,
}

impl View for TextStats {
    type V = SpecStats;

    open spec fn view(&self) -> SpecStats {
        SpecStats {
            word_count: self.word_count as int,
            letter_count: self.letter_count as int,
            sentence_count: self.sentence_count as int,
            paragraph_count: self.paragraph_count as int,
            total_word_length: self.total_word_length as int,
            average_word_length: self.average_word_length@,
            average_sentence_length: self.average_sentence_length@,
            longest_word: self.longest_word@,
            most_common_word: self.most_common_word@,
            unique_word_count: self.unique_word_count as int,
            total_syllables: self.total_syllables as int,
            complex_word_count: self.complex_word_count as int,
            english_level: self.english_level,
            fog_interpretation: self.fog_interpretation,
            smog_interpretation: self.smog_interpretation,
        }
    }
}

/// The case-folded tokens.
pub open spec fn folded_of(ts: Seq<Seq<char>>) -> Seq<Seq<char>> {
    ts.map_values(|t: Seq<char>| lower_of(t))
}

/// The first token of maximal length, starting from `best`.
pub open spec fn longest_from(ts: Seq<Seq<char>>, best: Seq<char>) -> Seq<char>
    decreases ts.len(),
{
    if ts.len() == 0 {
        best
    } else {
        longest_from(
            ts.drop_first(),
            if ts[0].len() > best.len() {
                ts[0]
            } else {
                best
            },
        )
    }
}

/// The first token of maximal character length; empty when there are none.
pub open spec fn longest_of(ts: Seq<Seq<char>>) -> Seq<char> {
    longest_from(ts, Seq::<char>::empty())
}

/// Sum of the syllable estimates of the case-folded tokens.
pub open spec fn total_syllables_of(fs: Seq<Seq<char>>) -> nat
    decreases fs.len(),
{
    if fs.len() == 0 {
        0
    } else {
        total_syllables_of(fs.drop_last()) + syllable_estimate(fs.last())
    }
}

/// Number of complex words: tokens estimated at three or more syllables.
pub open spec fn complex_count_of(fs: Seq<Seq<char>>) -> nat
    decreases fs.len(),
{
    if fs.len() == 0 {
        0
    } else {
        complex_count_of(fs.drop_last()) + if syllable_estimate(fs.last()) >= 3 {
            1nat
        } else {
            0nat
        }
    }
}

/// The record that the engine owes for `text`: every field is a function of
/// the text alone.
pub open spec fn stats_of(text: Seq<char>) -> SpecStats {
    let toks = tokens_of(text);
    let folded = folded_of(toks);
    let wc = toks.len() as int;
    let sc = sentence_count_of(text) as int;
    let twl = sum_token_lens(toks) as int;
    let syll = total_syllables_of(folded) as int;
    let cx = complex_count_of(folded) as int;
    SpecStats {
        word_count: wc,
        letter_count: letter_count_of(text) as int,
        sentence_count: sc,
        paragraph_count: paragraph_count_of(text) as int,
        total_word_length: twl,
        average_word_length: (twl, wc),
        average_sentence_length: (wc, sc),
        longest_word: longest_of(toks),
        most_common_word: most_common_of(folded),
        unique_word_count: unique_count(folded) as int,
        total_syllables: syll,
        complex_word_count: cx,
        english_level: english_level_of(wc, sc, syll),
        fog_interpretation: fog_level_of(wc, sc, cx),
        smog_interpretation: smog_level_of(sc, cx),
    }
}

/// Sum of the character lengths of the tokens.
fn sum_lengths(ts: &Vec<String>) -> (n: usize)
    requires
        sum_token_lens(ts.deep_view()) <= usize::MAX,
    ensures
        n == sum_token_lens(ts.deep_view()),
{
    let ghost d = ts.deep_view();
    let mut n: usize = 0;
    let mut i: usize = 0;
    while i < ts.len()
        invariant
            d == ts.deep_view(),
            sum_token_lens(d) <= usize::MAX,
            i <= d.len(),
            n == sum_token_lens(d.take(i as int)),
        decreases d.len() - i,
    {
        proof {
            assert(d.take(i as int + 1).drop_last() =~= d.take(i as int));
            assert(d.take(i as int + 1).last() == d[i as int]);
            lemma_sum_take_le(d, i as int + 1);
        }
        let l = ts[i].as_str().unicode_len();
        n = n + l;
        i = i + 1;
    }
    proof {
        assert(d.take(d.len() as int) =~= d);
    }
    n
}

/// First token of maximal character length; the empty string without tokens.
fn longest(ts: &Vec<String>) -> (r: String)
    ensures
        r@ == longest_of(ts.deep_view()),
{
    let ghost d = ts.deep_view();
    let mut best: String = String::new();
    let mut best_len: usize = 0;
    let mut i: usize = 0;
    proof {
        assert(d.skip(0) =~= d);
    }
    while i < ts.len()
        invariant
            d == ts.deep_view(),
            i <= d.len(),
            best_len == best@.len(),
            longest_from(d.skip(i as int), best@) == longest_of(d),
        decreases d.len() - i,
    {
        proof {
            assert(d.skip(i as int).drop_first() =~= d.skip(i as int + 1));
            assert(d.skip(i as int)[0] == d[i as int]);
        }
        let l = ts[i].as_str().unicode_len();
        if l > best_len {
            best = ts[i].clone();
            best_len = l;
        }
        i = i + 1;
    }
    proof {
        assert(d.skip(d.len() as int) =~= Seq::<Seq<char>>::empty());
    }
    best
}

/// Case-fold every token.
fn fold_all(ts: &Vec<String>) -> (fs: Vec<String>)
    ensures
        fs.deep_view() == folded_of(ts.deep_view()),
{
    let ghost d = ts.deep_view();
    let mut fs: Vec<String> = Vec::new();
    let mut i: usize = 0;
    while i < ts.len()
        invariant
            d == ts.deep_view(),
            i <= d.len(),
            fs.deep_view().len() == i,
            forall|j: int| 0 <= j < i ==> #[trigger] fs.deep_view()[j] == lower_of(d[j]),
        decreases d.len() - i,
    {
        let ghost old_deep = fs.deep_view();
        let f = fold_case(ts[i].as_str());
        let ghost fv = f@;
        fs.push(f);
        proof {
            assert forall|j: int| 0 <= j < i + 1 implies #[trigger] fs.deep_view()[j]
                == lower_of(d[j]) by {
                if j < i {
                    assert(fs.deep_view()[j] == old_deep[j]);
                } else {
                    assert(fs.deep_view()[j] == fv);
                }
            }
        }
        i = i + 1;
    }
    proof {
        assert(fs.deep_view() =~= folded_of(d));
    }
    fs
}

/// Total syllable estimate and complex-word count over the folded tokens.
fn syllable_totals(fs: &Vec<String>) -> (r: (u128, usize))
    ensures
        r.0 == total_syllables_of(fs.deep_view()),
        r.1 == complex_count_of(fs.deep_view()),
{
    let ghost d = fs.deep_view();
    let mut syll: u128 = 0;
    let mut cx: usize = 0;
    let mut i: usize = 0;
    while i < fs.len()
        invariant
            d == fs.deep_view(),
            i <= d.len(),
            cx <= i,
            cx == complex_count_of(d.take(i as int)),
            syll == total_syllables_of(d.take(i as int)),
            syll <= (i as int) * 0xFFFF_FFFF_FFFF_FFFFu64,
        decreases d.len() - i,
    {
        proof {
            assert(d.take(i as int + 1).drop_last() =~= d.take(i as int));
            assert(d.take(i as int + 1).last() == d[i as int]);
        }
        let chars = chars_vec(fs[i].as_str());
        let n = syllables_folded(&chars);
        proof {
            assert(n <= 0xFFFF_FFFF_FFFF_FFFFu64);
            assert((i as int) * 0xFFFF_FFFF_FFFF_FFFFu64 + 0xFFFF_FFFF_FFFF_FFFFu64 == (
            i as int + 1) * 0xFFFF_FFFF_FFFF_FFFFu64) by (nonlinear_arith);
            assert((i as int + 1) * 0xFFFF_FFFF_FFFF_FFFFu64 <= 0x1_0000_0000_0000_0000u128
                * 0xFFFF_FFFF_FFFF_FFFFu64) by (nonlinear_arith)
                requires
                    0 <= i as int + 1 <= 0x1_0000_0000_0000_0000u128,
            ;
        }
        syll = syll + (n as u128);
        if n >= 3 {
            cx = cx + 1;
        }
        i = i + 1;
    }
    proof {
        assert(d.take(d.len() as int) =~= d);
    }
    (syll, cx)
}

/// Compute the statistics record for `text`: a pure, total function, exactly
/// `stats_of` on the text's characters.
pub fn calculate_stats(text: &str) -> (r: TextStats)
    ensures
        r@ == stats_of(text@),
{
    let chars = chars_vec(text);
    let n = chars.len();
    proof {
        assert(n == text@.len());
        lemma_tokens_bounds(text@);
    }
    let letters = letter_count(&chars);
    let sentences = sentence_count(&chars);
    let paragraphs = paragraph_count(&chars);
    let toks = tokenize(text);
    let words = toks.len();
    let total_word_length = sum_lengths(&toks);
    let longest_word = longest(&toks);
    let folded = fold_all(&toks);
    let most_common_word = most_common(&folded);
    let unique_word_count = unique_words(&folded);
    let totals = syllable_totals(&folded);
    let total_syllables = totals.0;
    let complex_word_count = totals.1;
    let english_level = classify_english(words, sentences, total_syllables);
    let fog_interpretation = classify_fog(words, sentences, complex_word_count);
    let smog_interpretation = classify_smog(sentences, complex_word_count);
    TextStats {
        word_count: words,
        letter_count: letters,
        sentence_count: sentences,
        paragraph_count: paragraphs,
        total_word_length,
        average_word_length: Ratio { num: total_word_length, den: words },
        average_sentence_length: Ratio { num: words, den: sentences },
        longest_word,
        most_common_word,
        unique_word_count,
        total_syllables,
        complex_word_count,
        english_level,
        fog_interpretation,
        smog_interpretation,
    }
}

/// Without words there is nothing to average or to pick: the average word
/// length reads as zero and both distinguished words are empty.
pub proof fn lemma_no_words_defaults(text: Seq<char>)
    ensures
        stats_of(text).word_count == 0 ==> reads_as_zero(stats_of(text).average_word_length),
        stats_of(text).word_count == 0 ==> stats_of(text).longest_word == Seq::<char>::empty(),
        stats_of(text).word_count == 0 ==> stats_of(text).most_common_word == Seq::<
            char,
        >::empty(),
{
    if stats_of(text).word_count == 0 {
        let toks = tokens_of(text);
        assert(toks =~= Seq::<Seq<char>>::empty());
        assert(folded_of(toks).len() == 0);
    }
}

/// Without sentences the average sentence length reads as zero and the SMOG
/// grade falls back to its guarded-zero bucket.
pub proof fn lemma_no_sentences_defaults(text: Seq<char>)
    ensures
        stats_of(text).sentence_count == 0 ==> reads_as_zero(
            stats_of(text).average_sentence_length,
        ),
        stats_of(text).sentence_count == 0 ==> stats_of(text).smog_interpretation
            == SmogInterpretation::BasicEnglish,
{
}

/// The record is a function of the text alone; together with the contract of
/// `calculate_stats`, two calls on the same text give records that agree in
/// every field.
pub proof fn lemma_stats_deterministic(text: Seq<char>, a: SpecStats, b: SpecStats)
    requires
        a == stats_of(text),
        b == stats_of(text),
    ensures
        a == b,
{
}

} // verus!
