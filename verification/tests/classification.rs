use quickcount::classify::{
    classify_english, classify_fog, classify_smog, interpret_readability, EnglishLevel,
    FogInterpretation, SmogInterpretation,
};

#[test]
fn english_level_buckets() {
    // fk = 0.39*(10/5) + 11.8*(15/10) - 15.59 = 2.89
    assert_eq!(classify_english(10, 5, 15), EnglishLevel::Basic);
    // fk = 0.39*(10/2) + 11.8*(18/10) - 15.59 = 7.60
    assert_eq!(classify_english(10, 2, 18), EnglishLevel::Intermediate);
    // fk = 0.39*(10/2) + 11.8*(30/10) - 15.59 = 21.76
    assert_eq!(classify_english(10, 2, 30), EnglishLevel::Advanced);
    // No words: guarded to 0.0, the lowest bucket.
    assert_eq!(classify_english(0, 3, 0), EnglishLevel::Basic);
}

#[test]
fn english_level_guards_missing_sentences() {
    // No sentences: asl reads as 0, fk = 11.8*(15/10) - 15.59 = 2.11.
    assert_eq!(classify_english(10, 0, 15), EnglishLevel::Basic);
    // fk = 11.8*(20/10) - 15.59 = 8.01, just past the Intermediate bound.
    assert_eq!(classify_english(10, 0, 20), EnglishLevel::Advanced);
}

#[test]
fn fog_buckets_and_inclusive_boundary() {
    // fog = 0.4*(10/1 + 100*(1/10)) = 8.0 exactly: still Basic English.
    assert_eq!(classify_fog(10, 1, 1), FogInterpretation::BasicEnglish);
    // fog = 0.4*(100/30 + 100*(36/100)) = 15.73
    assert_eq!(classify_fog(100, 30, 36), FogInterpretation::Advanced);
    // fog = 0.4*(10/1 + 100*(10/10)) = 44.0
    assert_eq!(classify_fog(10, 1, 10), FogInterpretation::VeryAdvanced);
    // fog = 0.4*(20/2 + 100*(2/20)) = 8.0 exactly as well.
    assert_eq!(classify_fog(20, 2, 2), FogInterpretation::BasicEnglish);
    // fog = 0.4*(12/1 + 100*(2/12)) = 11.47
    assert_eq!(classify_fog(12, 1, 2), FogInterpretation::Intermediate);
}

#[test]
fn smog_buckets() {
    // smog = 1.043*sqrt(4*(30/30)) + 3.1291 = 5.22
    assert_eq!(classify_smog(30, 4), SmogInterpretation::BasicEnglish);
    // smog = 1.043*sqrt(9*(30/30)) + 3.1291 = 6.26
    assert_eq!(classify_smog(30, 9), SmogInterpretation::IntermediateEnglish);
    // smog = 1.043*sqrt(36*(30/30)) + 3.1291 = 9.39
    assert_eq!(classify_smog(30, 36), SmogInterpretation::UpperIntermediate);
    // smog = 1.043*sqrt(100*(30/30)) + 3.1291 = 13.56
    assert_eq!(classify_smog(30, 100), SmogInterpretation::Advanced);
    // smog = 1.043*sqrt(225*(30/30)) + 3.1291 = 18.77
    assert_eq!(classify_smog(30, 225), SmogInterpretation::VeryAdvanced);
    // No sentences: guarded to 0.0, the lowest bucket.
    assert_eq!(classify_smog(0, 50), SmogInterpretation::BasicEnglish);
}

#[test]
fn interpret_readability_pairs_smog_and_fog() {
    let (smog, fog) = interpret_readability(30, 36, 100);
    assert_eq!(smog, SmogInterpretation::UpperIntermediate);
    assert_eq!(fog, FogInterpretation::Advanced);
}

#[test]
fn bucket_labels() {
    assert_eq!(EnglishLevel::Basic.label(), "Basic");
    assert_eq!(EnglishLevel::Intermediate.label(), "Intermediate");
    assert_eq!(EnglishLevel::Advanced.label(), "Advanced");
    assert_eq!(FogInterpretation::BasicEnglish.label(), "Basic English");
    assert_eq!(FogInterpretation::VeryAdvanced.label(), "Very Advanced");
    assert_eq!(SmogInterpretation::IntermediateEnglish.label(), "Intermediate English");
    assert_eq!(SmogInterpretation::UpperIntermediate.label(), "Upper Intermediate");
}
