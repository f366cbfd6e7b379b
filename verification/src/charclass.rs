//! Character classes the engine is built on, and a helper that exposes a
//! string slice as a vector of its characters.

use vstd::prelude::*;

verus! {

/// Whitespace for tokenization and for the non-whitespace character count:
/// space, tab or newline.
pub open spec fn is_blank(c: char) -> bool {
    c == ' ' || c == '\t' || c == '\n'
}

/// Terminal punctuation: each occurrence counts as one sentence.
pub open spec fn is_terminal(c: char) -> bool {
    c == '.' || c == '!' || c == '?'
}

/// Vowel class used to trim consonants and to count syllable runs
/// (`y` included).
pub open spec fn is_vowel_y(c: char) -> bool {
    c == 'a' || c == 'e' || c == 'i' || c == 'o' || c == 'u' || c == 'y'
}

/// Strict vowels, the class whose runs are collapsed (`y` excluded).
pub open spec fn is_vowel(c: char) -> bool {
    c == 'a' || c == 'e' || c == 'i' || c == 'o' || c == 'u'
}

pub fn blank_char(c: char) -> (r: bool)
    ensures
        r == is_blank(c),
{
    c == ' ' || c == '\t' || c == '\n'
}

pub fn terminal_char(c: char) -> (r: bool)
    ensures
        r == is_terminal(c),
{
    c == '.' || c == '!' || c == '?'
}

pub fn vowel_y_char(c: char) -> (r: bool)
    ensures
        r == is_vowel_y(c),
{
    c == 'a' || c == 'e' || c == 'i' || c == 'o' || c == 'u' || c == 'y'
}

pub fn vowel_char(c: char) -> (r: bool)
    ensures
        r == is_vowel(c),
{
    c == 'a' || c == 'e' || c == 'i' || c == 'o' || c == 'u'
}

/// The characters of a string slice, as a vector.
pub fn chars_vec(s: &str) -> (r: Vec<char>)
    ensures
        r@ == s@,
{
    let n = s.unicode_len();
    let mut r: Vec<char> = Vec::new();
    let mut i: usize = 0;
    while i < n
        invariant
            n == s@.len(),
            i <= n,
            r@ == s@.take(i as int),
        decreases n - i,
    {
        r.push(s.get_char(i));
        i = i + 1;
        proof {
            assert(r@ =~= s@.take(i as int));
        }
    }
    proof {
        assert(s@.take(n as int) =~= s@);
    }
    r
}

} // verus!
