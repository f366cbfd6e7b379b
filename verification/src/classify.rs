//! Readability classification. The three indices are real-valued:
//!
//! * Flesch-Kincaid grade `fk = 0.39 * asl + 11.8 * (syll / wc) - 15.59`,
//! * Gunning Fog index `fog = 0.4 * (asl + 100 * (cx / wc))`,
//! * SMOG grade `smog = 1.043 * sqrt(cx * (30 / sc)) + 3.1291`,
//!
//! where `wc` is the word count, `sc` the sentence count, `syll` the total
//! syllable estimate, `cx` the complex-word count, and `asl` the average
//! sentence length `wc / sc`, guarded to 0 when `sc == 0`. When a word count
//! (for Flesch-Kincaid and Fog) or sentence count (for SMOG) of zero would
//! leave an index undefined, the index is taken to be 0, which lands in the
//! lowest bucket of its table.
//!
//! Each bucket test `index <= T` is decided exactly, by clearing the positive
//! denominators (and for SMOG squaring both sides, both non-negative), never
//! by rounded arithmetic. For example, with `sc > 0`:
//!
//! `fk <= T  <=>  39*wc^2 + 1180*syll*sc <= (100*T + 1559)*sc*wc`
//!
//! after multiplying by `100*sc*wc > 0`; with `sc == 0` the guarded form is
//! `11.8*syll/wc - 15.59 <= T  <=>  1180*syll <= (100*T + 1559)*wc`. For
//! SMOG, `smog <= T  <=>  sqrt(30*cx/sc) <= (10000*T - 31291)/(10*1043)`,
//! and squaring gives `30*10430^2*cx <= (10000*T - 31291)^2 * sc`.

use vstd::prelude::*;
use crate::wide::{wide_term, wide_add, wide_le};

verus! {

/// Classification of the Flesch-Kincaid grade.
#[derive(Clone, Copy, Debug, PartialEq, Eq, Structural)]
pub enum EnglishLevel {
    Basic,
    Intermediate,
    Advanced,
}

/// Classification of the Gunning Fog index.
#[derive(Clone, Copy, Debug, PartialEq, Eq, Structural)]
pub enum FogInterpretation {
    BasicEnglish,
    Intermediate,
    Advanced,
    VeryAdvanced,
}

/// Classification of the SMOG grade.
#[derive(Clone, Copy, Debug, PartialEq, Eq, Structural)]
pub enum SmogInterpretation {
    BasicEnglish,
    IntermediateEnglish,
    UpperIntermediate,
    Advanced,
    VeryAdvanced,
}

/// `fk <= T` where `kk = 100*T + 1559`, for `wc > 0`.
pub open spec fn fk_within(wc: int, sc: int, syll: int, kk: int) -> bool {
    if sc > 0 {
        39 * wc * wc + 1180 * syll * sc <= kk * sc * wc
    } else {
        1180 * syll <= kk * wc
    }
}

/// Flesch-Kincaid buckets: `<= 5.0` Basic, `<= 8.0` Intermediate, else
/// Advanced; an empty text (no words) counts as Basic.
pub open spec fn english_level_of(wc: int, sc: int, syll: int) -> EnglishLevel {
    if wc == 0 {
        EnglishLevel::Basic
    } else if fk_within(wc, sc, syll, 2059) {
        EnglishLevel::Basic
    } else if fk_within(wc, sc, syll, 2359) {
        EnglishLevel::Intermediate
    } else {
        EnglishLevel::Advanced
    }
}

/// `fog <= T` where `m = 5*T`, for `wc > 0`.
pub open spec fn fog_within(wc: int, sc: int, cx: int, m: int) -> bool {
    if sc > 0 {
        2 * wc * wc + 200 * cx * sc <= m * sc * wc
    } else {
        200 * cx <= m * wc
    }
}

/// Gunning Fog buckets: `<= 8.0` Basic English, `<= 12.0` Intermediate,
/// `<= 16.0` Advanced, else Very Advanced; no words counts as Basic English.
pub open spec fn fog_level_of(wc: int, sc: int, cx: int) -> FogInterpretation {
    if wc == 0 {
        FogInterpretation::BasicEnglish
    } else if fog_within(wc, sc, cx, 40) {
        FogInterpretation::BasicEnglish
    } else if fog_within(wc, sc, cx, 60) {
        FogInterpretation::Intermediate
    } else if fog_within(wc, sc, cx, 80) {
        FogInterpretation::Advanced
    } else {
        FogInterpretation::VeryAdvanced
    }
}

/// `smog <= T` where `v = 10000*T - 31291`, for `sc > 0`.
pub open spec fn smog_within(sc: int, cx: int, v: int) -> bool {
    30 * 10430 * 10430 * cx <= v * v * sc
}

/// SMOG buckets: `<= 6.0` Basic English, `<= 9.0` Intermediate English,
/// `<= 12.0` Upper Intermediate, `<= 16.0` Advanced, else Very Advanced; no
/// sentences counts as Basic English.
pub open spec fn smog_level_of(sc: int, cx: int) -> SmogInterpretation {
    if sc == 0 {
        SmogInterpretation::BasicEnglish
    } else if smog_within(sc, cx, 28709) {
        SmogInterpretation::BasicEnglish
    } else if smog_within(sc, cx, 58709) {
        SmogInterpretation::IntermediateEnglish
    } else if smog_within(sc, cx, 88709) {
        SmogInterpretation::UpperIntermediate
    } else if smog_within(sc, cx, 128709) {
        SmogInterpretation::Advanced
    } else {
        SmogInterpretation::VeryAdvanced
    }
}

/// Display label of a Flesch-Kincaid bucket.
pub open spec fn english_label_of(l: EnglishLevel) -> Seq<char> {
    match l {
        EnglishLevel::Basic => "Basic"@,
        EnglishLevel::Intermediate => "Intermediate"@,
        EnglishLevel::Advanced => "Advanced"@,
    }
}

/// Display label of a Gunning Fog bucket.
pub open spec fn fog_label_of(l: FogInterpretation) -> Seq<char> {
    match l {
        FogInterpretation::BasicEnglish => "Basic English"@,
        FogInterpretation::Intermediate => "Intermediate"@,
        FogInterpretation::Advanced => "Advanced"@,
        FogInterpretation::VeryAdvanced => "Very Advanced"@,
    }
}

/// Display label of a SMOG bucket.
pub open spec fn smog_label_of(l: SmogInterpretation) -> Seq<char> {
    match l {
        SmogInterpretation::BasicEnglish => "Basic English"@,
        SmogInterpretation::IntermediateEnglish => "Intermediate English"@,
        SmogInterpretation::UpperIntermediate => "Upper Intermediate"@,
        SmogInterpretation::Advanced => "Advanced"@,
        SmogInterpretation::VeryAdvanced => "Very Advanced"@,
    }
}

impl EnglishLevel {
    /// The bucket's display label.
    pub fn label(&self) -> (r: &'static str)
        ensures
            r@ == english_label_of(*self),
    {
        match self {
            EnglishLevel::Basic => "Basic",
            EnglishLevel::Intermediate => "Intermediate",
            EnglishLevel::Advanced => "Advanced",
        }
    }
}

impl FogInterpretation {
    /// The bucket's display label.
    pub fn label(&self) -> (r: &'static str)
        ensures
            r@ == fog_label_of(*self),
    {
        match self {
            FogInterpretation::BasicEnglish => "Basic English",
            FogInterpretation::Intermediate => "Intermediate",
            FogInterpretation::Advanced => "Advanced",
            FogInterpretation::VeryAdvanced => "Very Advanced",
        }
    }
}

impl SmogInterpretation {
    /// The bucket's display label.
    pub fn label(&self) -> (r: &'static str)
        ensures
            r@ == smog_label_of(*self),
    {
        match self {
            SmogInterpretation::BasicEnglish => "Basic English",
            SmogInterpretation::IntermediateEnglish => "Intermediate English",
            SmogInterpretation::UpperIntermediate => "Upper Intermediate",
            SmogInterpretation::Advanced => "Advanced",
            SmogInterpretation::VeryAdvanced => "Very Advanced",
        }
    }
}

/// With at least two syllables per word on average, the Flesch-Kincaid grade
/// exceeds every bucket threshold.
proof fn lemma_fk_beyond(wc: int, sc: int, syll: int, kk: int)
    requires
        wc >= 1,
        sc >= 0,
        syll >= 2 * wc,
        1559 < kk <= 2359,
    ensures
        !fk_within(wc, sc, syll, kk),
{
    if sc > 0 {
        assert(39 * wc * wc + 1180 * syll * sc > kk * sc * wc) by (nonlinear_arith)
            requires
                wc >= 1,
                sc >= 1,
                syll >= 2 * wc,
                kk <= 2359,
        ;
    } else {
        assert(1180 * syll > kk * wc) by (nonlinear_arith)
            requires
                wc >= 1,
                syll >= 2 * wc,
                kk <= 2359,
        ;
    }
}

/// Classify the Flesch-Kincaid grade from the word count, sentence count and
/// total syllable estimate.
pub fn classify_english(wc: usize, sc: usize, syll: u128) -> (r: EnglishLevel)
    ensures
        r == english_level_of(wc as int, sc as int, syll as int),
{
    if wc == 0 {
        return EnglishLevel::Basic;
    }
    if syll >= 2 * (wc as u128) {
        proof {
            lemma_fk_beyond(wc as int, sc as int, syll as int, 2059);
            lemma_fk_beyond(wc as int, sc as int, syll as int, 2359);
        }
        return EnglishLevel::Advanced;
    }
    if sc > 0 {
        let lhs = wide_add(
            wide_term(39, wc as u128, wc as u64),
            wide_term(1180, syll, sc as u64),
        );
        if wide_le(lhs, wide_term(2059, sc as u128, wc as u64)) {
            EnglishLevel::Basic
        } else if wide_le(lhs, wide_term(2359, sc as u128, wc as u64)) {
            EnglishLevel::Intermediate
        } else {
            EnglishLevel::Advanced
        }
    } else {
        let lhs = 1180 * syll;
        if lhs <= 2059 * (wc as u128) {
            EnglishLevel::Basic
        } else if lhs <= 2359 * (wc as u128) {
            EnglishLevel::Intermediate
        } else {
            EnglishLevel::Advanced
        }
    }
}

/// Classify the Gunning Fog index from the word count, sentence count and
/// complex-word count.
pub fn classify_fog(wc: usize, sc: usize, cx: usize) -> (r: FogInterpretation)
    ensures
        r == fog_level_of(wc as int, sc as int, cx as int),
{
    if wc == 0 {
        return FogInterpretation::BasicEnglish;
    }
    if sc > 0 {
        let lhs = wide_add(
            wide_term(2, wc as u128, wc as u64),
            wide_term(200, cx as u128, sc as u64),
        );
        if wide_le(lhs, wide_term(40, sc as u128, wc as u64)) {
            FogInterpretation::BasicEnglish
        } else if wide_le(lhs, wide_term(60, sc as u128, wc as u64)) {
            FogInterpretation::Intermediate
        } else if wide_le(lhs, wide_term(80, sc as u128, wc as u64)) {
            FogInterpretation::Advanced
        } else {
            FogInterpretation::VeryAdvanced
        }
    } else {
        let lhs = 200 * (cx as u128);
        if lhs <= 40 * (wc as u128) {
            FogInterpretation::BasicEnglish
        } else if lhs <= 60 * (wc as u128) {
            FogInterpretation::Intermediate
        } else if lhs <= 80 * (wc as u128) {
            FogInterpretation::Advanced
        } else {
            FogInterpretation::VeryAdvanced
        }
    }
}

/// Classify the SMOG grade from the sentence count and complex-word count.
pub fn classify_smog(sc: usize, cx: usize) -> (r: SmogInterpretation)
    ensures
        r == smog_level_of(sc as int, cx as int),
{
    if sc == 0 {
        return SmogInterpretation::BasicEnglish;
    }
    proof {
        assert(cx as u128 <= 0xFFFF_FFFF_FFFF_FFFFu128);
        assert(sc as u128 <= 0xFFFF_FFFF_FFFF_FFFFu128);
        assert((30 * 10430 * 10430) * (cx as int) <= (30 * 10430 * 10430)
            * 0xFFFF_FFFF_FFFF_FFFFi128) by (nonlinear_arith)
            requires
                0 <= cx as int <= 0xFFFF_FFFF_FFFF_FFFFi128,
        ;
        assert((28709 * 28709) * (sc as int) <= (28709 * 28709) * 0xFFFF_FFFF_FFFF_FFFFi128
            && (58709 * 58709) * (sc as int) <= (58709 * 58709) * 0xFFFF_FFFF_FFFF_FFFFi128
            && (88709 * 88709) * (sc as int) <= (88709 * 88709) * 0xFFFF_FFFF_FFFF_FFFFi128
            && (128709 * 128709) * (sc as int) <= (128709 * 128709)
            * 0xFFFF_FFFF_FFFF_FFFFi128) by (nonlinear_arith)
            requires
                0 <= sc as int <= 0xFFFF_FFFF_FFFF_FFFFi128,
        ;
    }
    let lhs = 30u128 * 10430 * 10430 * (cx as u128);
    if lhs <= 28709u128 * 28709 * (sc as u128) {
        SmogInterpretation::BasicEnglish
    } else if lhs <= 58709u128 * 58709 * (sc as u128) {
        SmogInterpretation::IntermediateEnglish
    } else if lhs <= 88709u128 * 88709 * (sc as u128) {
        SmogInterpretation::UpperIntermediate
    } else if lhs <= 128709u128 * 128709 * (sc as u128) {
        SmogInterpretation::Advanced
    } else {
        SmogInterpretation::VeryAdvanced
    }
}


/// Interpret the SMOG grade and the Gunning Fog index together, from the
/// exact counts that determine them: sentence count, complex-word count and
/// word count.
pub fn interpret_readability(sc: usize, cx: usize, wc: usize) -> (r: (
    SmogInterpretation,
    FogInterpretation,
))
    ensures
        r.0 == smog_level_of(sc as int, cx as int),
        r.1 == fog_level_of(wc as int, sc as int, cx as int),
{
    (classify_smog(sc, cx), classify_fog(wc, sc, cx))
}

} // verus!
