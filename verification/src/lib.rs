//! QuickCount: a verified text-statistics engine.
//!
//! The engine is a pure, total function from a piece of text to a record of
//! descriptive statistics (token, character, sentence and paragraph counts,
//! longest and most common token, a heuristic syllable estimate) and of
//! readability classifications (Flesch-Kincaid, Gunning Fog, SMOG).
//!
//! Throughout the crate "whitespace" means space, tab or newline, a token is a
//! maximal run of non-whitespace characters, and case folding is the Unicode
//! lowercasing of the standard library, modelled by the uninterpreted
//! function `lower_of`.
//!
//! The three readability indices are real-valued (SMOG involves a square
//! root), so the record carries their exact integer ingredients instead of
//! rounded values, and the classification tables are decided by exact integer
//! arithmetic equivalent to the real-valued threshold comparisons. Rendering
//! the indices as decimal numbers is the caller's concern.

pub mod charclass;
pub mod classify;
pub mod counts;
pub mod fold;
pub mod freq;
pub mod qc_editor;
pub mod syllable;
pub mod textstat;
pub mod tokenize;
pub mod wide;
