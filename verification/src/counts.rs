//! Character-level counters: non-whitespace characters, terminal punctuation
//! (sentences) and blank-line separated paragraphs.

use vstd::prelude::*;
use crate::charclass::{is_blank, is_terminal, blank_char, terminal_char};

verus! {

/// Number of non-whitespace characters in `s`. The record calls this the
/// letter count, though it includes digits and punctuation.
pub open spec fn letter_count_of(s: Seq<char>) -> nat
    decreases s.len(),
{
    if s.len() == 0 {
        0
    } else {
        letter_count_of(s.drop_last()) + if is_blank(s.last()) {
            0nat
        } else {
            1nat
        }
    }
}

pub proof fn lemma_letter_count_le(s: Seq<char>)
    ensures
        letter_count_of(s) <= s.len(),
    decreases s.len(),
{
    if s.len() > 0 {
        lemma_letter_count_le(s.drop_last());
    }
}

/// Number of sentence-terminal characters (`.`, `!`, `?`) in `s`; each
/// occurrence counts as one sentence, wherever it stands.
pub open spec fn sentence_count_of(s: Seq<char>) -> nat
    decreases s.len(),
{
    if s.len() == 0 {
        0
    } else {
        sentence_count_of(s.drop_last()) + if is_terminal(s.last()) {
            1nat
        } else {
            0nat
        }
    }
}

pub proof fn lemma_sentence_count_le(s: Seq<char>)
    ensures
        sentence_count_of(s) <= s.len(),
    decreases s.len(),
{
    if s.len() > 0 {
        lemma_sentence_count_le(s.drop_last());
    }
}

/// State of the paragraph scanner after reading a prefix of the text:
/// paragraphs already closed by a `"\n\n"` separator, whether the open
/// segment holds a non-whitespace character, and whether the last character
/// read was a newline not yet consumed as part of a separator.
///
/// This mirrors splitting the text on the two-character sequence `"\n\n"`
/// (leftmost, non-overlapping) and counting the segments whose trimmed form
/// is non-empty: a segment trims to non-empty exactly when it holds a
/// non-whitespace character.
pub open spec fn para_scan(s: Seq<char>) -> (nat, bool, bool)
    decreases s.len(),
{
    if s.len() == 0 {
        (0nat, false, false)
    } else {
        let st = para_scan(s.drop_last());
        let c = s.last();
        if c == '\n' {
            if st.2 {
                ((st.0 + if st.1 {
                    1nat
                } else {
                    0nat
                }), false, false)
            } else {
                (st.0, st.1, true)
            }
        } else {
            (st.0, st.1 || !is_blank(c), false)
        }
    }
}

/// Number of non-empty (after trimming) blocks separated by a blank line.
pub open spec fn paragraph_count_of(s: Seq<char>) -> nat {
    para_scan(s).0 + if para_scan(s).1 {
        1nat
    } else {
        0nat
    }
}

pub proof fn lemma_para_scan_le(s: Seq<char>)
    ensures
        para_scan(s).0 + if para_scan(s).1 {
            1nat
        } else {
            0nat
        } <= s.len(),
    decreases s.len(),
{
    if s.len() > 0 {
        lemma_para_scan_le(s.drop_last());
    }
}

pub fn letter_count(s: &Vec<char>) -> (n: usize)
    ensures
        n == letter_count_of(s@),
{
    let mut n: usize = 0;
    let mut i: usize = 0;
    while i < s.len()
        invariant
            i <= s@.len(),
            n == letter_count_of(s@.take(i as int)),
        decreases s@.len() - i,
    {
        proof {
            lemma_letter_count_le(s@.take(i as int));
            assert(s@.take(i as int).len() == i);
            assert(s@.take(i as int + 1).drop_last() =~= s@.take(i as int));
            assert(s@.take(i as int + 1).last() == s@[i as int]);
        }
        if !blank_char(s[i]) {
            n = n + 1;
        }
        i = i + 1;
    }
    proof {
        assert(s@.take(s@.len() as int) =~= s@);
    }
    n
}

pub fn sentence_count(s: &Vec<char>) -> (n: usize)
    ensures
        n == sentence_count_of(s@),
{
    let mut n: usize = 0;
    let mut i: usize = 0;
    while i < s.len()
        invariant
            i <= s@.len(),
            n == sentence_count_of(s@.take(i as int)),
        decreases s@.len() - i,
    {
        proof {
            lemma_sentence_count_le(s@.take(i as int));
            assert(s@.take(i as int).len() == i);
            assert(s@.take(i as int + 1).drop_last() =~= s@.take(i as int));
            assert(s@.take(i as int + 1).last() == s@[i as int]);
        }
        if terminal_char(s[i]) {
            n = n + 1;
        }
        i = i + 1;
    }
    proof {
        assert(s@.take(s@.len() as int) =~= s@);
    }
    n
}

pub fn paragraph_count(s: &Vec<char>) -> (n: usize)
    ensures
        n == paragraph_count_of(s@),
{
    let mut done: usize = 0;
    let mut cur: bool = false;
    let mut pend: bool = false;
    let mut i: usize = 0;
    while i < s.len()
        invariant
            i <= s@.len(),
            para_scan(s@.take(i as int)) == (done as nat, cur, pend),
        decreases s@.len() - i,
    {
        proof {
            lemma_para_scan_le(s@.take(i as int));
            assert(s@.take(i as int).len() == i);
            assert(s@.take(i as int + 1).drop_last() =~= s@.take(i as int));
            assert(s@.take(i as int + 1).last() == s@[i as int]);
        }
        let c = s[i];
        if c == '\n' {
            if pend {
                if cur {
                    done = done + 1;
                }
                cur = false;
                pend = false;
            } else {
                pend = true;
            }
        } else {
            if !blank_char(c) {
                cur = true;
            }
            pend = false;
        }
        i = i + 1;
    }
    proof {
        assert(s@.take(s@.len() as int) =~= s@);
        lemma_para_scan_le(s@);
    }
    if cur {
        done = done + 1;
    }
    done
}

} // verus!
