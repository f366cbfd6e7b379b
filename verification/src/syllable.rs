//! Heuristic syllable estimation over a case-folded token: trim consonants
//! from both ends, collapse runs of three strict vowels and then runs of two
//! to a placeholder vowel, count the remaining vowel-class runs, and floor
//! the result at one.

use vstd::prelude::*;
use crate::charclass::{is_vowel, is_vowel_y, vowel_char, vowel_y_char, chars_vec};
use crate::fold::{lower_of, fold_case};

verus! {

/// Number of leading characters outside the vowel class.
pub open spec fn lead_trim(w: Seq<char>) -> int
    decreases w.len(),
{
    if w.len() == 0 {
        0
    } else if is_vowel_y(w[0]) {
        0
    } else {
        1 + lead_trim(w.drop_first())
    }
}

/// Index just past the last vowel-class character (0 when there is none).
pub open spec fn tail_end(w: Seq<char>) -> int
    decreases w.len(),
{
    if w.len() == 0 {
        0
    } else if is_vowel_y(w.last()) {
        w.len() as int
    } else {
        tail_end(w.drop_last())
    }
}

/// The token with leading and trailing non-vowel-class characters removed;
/// interior characters are untouched.
pub open spec fn trim_ends(w: Seq<char>) -> Seq<char> {
    if lead_trim(w) < tail_end(w) {
        w.subrange(lead_trim(w), tail_end(w))
    } else {
        Seq::<char>::empty()
    }
}

pub proof fn lemma_lead_trim(w: Seq<char>)
    ensures
        0 <= lead_trim(w) <= w.len(),
        forall|j: int| 0 <= j < lead_trim(w) ==> !is_vowel_y(#[trigger] w[j]),
        lead_trim(w) < w.len() ==> is_vowel_y(w[lead_trim(w)]),
    decreases w.len(),
{
    if w.len() > 0 && !is_vowel_y(w[0]) {
        lemma_lead_trim(w.drop_first());
        assert forall|j: int| 0 <= j < lead_trim(w) implies !is_vowel_y(#[trigger] w[j]) by {
            if j > 0 {
                assert(w.drop_first()[j - 1] == w[j]);
                assert(!is_vowel_y(w.drop_first()[j - 1]));
            }
        }
        if lead_trim(w) < w.len() {
            assert(w.drop_first()[lead_trim(w.drop_first())] == w[lead_trim(w)]);
        }
    }
}

pub proof fn lemma_tail_end(w: Seq<char>)
    ensures
        0 <= tail_end(w) <= w.len(),
        forall|j: int| tail_end(w) <= j < w.len() ==> !is_vowel_y(#[trigger] w[j]),
        tail_end(w) > 0 ==> is_vowel_y(w[tail_end(w) - 1]),
    decreases w.len(),
{
    if w.len() > 0 && !is_vowel_y(w.last()) {
        lemma_tail_end(w.drop_last());
        assert forall|j: int| tail_end(w) <= j < w.len() implies !is_vowel_y(
            #[trigger] w[j],
        ) by {
            if j < w.len() - 1 {
                assert(w.drop_last()[j] == w[j]);
                assert(!is_vowel_y(w.drop_last()[j]));
            } else {
                assert(w[j] == w.last());
            }
        }
        if tail_end(w) > 0 {
            assert(w.drop_last()[tail_end(w.drop_last()) - 1] == w[tail_end(w) - 1]);
        }
    }
}

/// State of a collapse pass over a prefix: output so far, and the pending
/// run of strict vowels (always shorter than the run length collapsed).
pub open spec fn collapse_scan(w: Seq<char>, k: int) -> (Seq<char>, Seq<char>)
    decreases w.len(),
{
    if w.len() == 0 {
        (Seq::<char>::empty(), Seq::<char>::empty())
    } else {
        let st = collapse_scan(w.drop_last(), k);
        let c = w.last();
        if is_vowel(c) {
            if st.1.len() == k - 1 {
                (st.0.push('a'), Seq::<char>::empty())
            } else {
                (st.0, st.1.push(c))
            }
        } else {
            (st.0 + st.1.push(c), Seq::<char>::empty())
        }
    }
}

/// Replace every leftmost, non-overlapping run of exactly `k` strict vowels
/// by a single placeholder `'a'`; shorter runs and everything else are kept.
pub open spec fn collapse_runs(w: Seq<char>, k: int) -> Seq<char> {
    collapse_scan(w, k).0 + collapse_scan(w, k).1
}

/// State of the run counter over a prefix: maximal vowel-class runs seen,
/// and whether the prefix ends inside a run.
pub open spec fn run_scan(w: Seq<char>) -> (nat, bool)
    decreases w.len(),
{
    if w.len() == 0 {
        (0nat, false)
    } else {
        let st = run_scan(w.drop_last());
        if is_vowel_y(w.last()) {
            if st.1 {
                st
            } else {
                ((st.0 + 1) as nat, true)
            }
        } else {
            (st.0, false)
        }
    }
}

/// Number of maximal runs of vowel-class characters in `w`.
pub open spec fn vowel_run_count(w: Seq<char>) -> nat {
    run_scan(w).0
}

pub proof fn lemma_run_scan_le(w: Seq<char>)
    ensures
        run_scan(w).0 <= w.len(),
    decreases w.len(),
{
    if w.len() > 0 {
        lemma_run_scan_le(w.drop_last());
    }
}

/// The syllable estimate of a case-folded token: vowel-class runs after the
/// trim and both collapse passes, floored at one.
pub open spec fn syllable_estimate(w: Seq<char>) -> nat {
    let runs = vowel_run_count(collapse_runs(collapse_runs(trim_ends(w), 3), 2));
    if runs == 0 {
        1nat
    } else {
        runs
    }
}

/// Every token estimates to at least one syllable, vowels or none.
pub proof fn lemma_syllable_estimate_at_least_one(w: Seq<char>)
    ensures
        syllable_estimate(w) >= 1,
{
}

/// Remove leading and trailing non-vowel-class characters.
pub fn trim_token(w: &Vec<char>) -> (r: Vec<char>)
    ensures
        r@ == trim_ends(w@),
{
    proof {
        lemma_lead_trim(w@);
        lemma_tail_end(w@);
    }
    let n = w.len();
    let mut lo: usize = 0;
    while lo < n && !vowel_y_char(w[lo])
        invariant
            n == w@.len(),
            lo <= n,
            forall|j: int| 0 <= j < lo ==> !is_vowel_y(#[trigger] w@[j]),
        decreases n - lo,
    {
        lo = lo + 1;
    }
    if lo == n {
        proof {
            assert(lead_trim(w@) == n) by {
                if lead_trim(w@) < n {
                    assert(!is_vowel_y(w@[lead_trim(w@)]));
                }
            }
            assert(tail_end(w@) == 0) by {
                if tail_end(w@) > 0 {
                    assert(!is_vowel_y(w@[tail_end(w@) - 1]));
                }
            }
        }
        return Vec::new();
    }
    proof {
        assert(is_vowel_y(w@[lo as int]));
        assert(lead_trim(w@) == lo) by {
            if lead_trim(w@) < lo {
                assert(!is_vowel_y(w@[lead_trim(w@)]));
            }
        }
    }
    let mut hi: usize = n;
    while hi > lo + 1 && !vowel_y_char(w[hi - 1])
        invariant
            n == w@.len(),
            lo < hi <= n,
            forall|j: int| hi <= j < n ==> !is_vowel_y(#[trigger] w@[j]),
        decreases hi,
    {
        hi = hi - 1;
    }
    proof {
        assert(is_vowel_y(w@[hi - 1])) by {
            if hi == lo + 1 {
                assert(is_vowel_y(w@[lo as int]));
            }
        }
        assert(tail_end(w@) == hi) by {
            if tail_end(w@) > hi {
                assert(!is_vowel_y(w@[tail_end(w@) - 1]));
            }
            if tail_end(w@) < hi {
                assert(!is_vowel_y(w@[hi - 1]));
            }
        }
    }
    let mut r: Vec<char> = Vec::new();
    let mut i: usize = lo;
    while i < hi
        invariant
            n == w@.len(),
            lo <= i <= hi <= n,
            r@ == w@.subrange(lo as int, i as int),
        decreases hi - i,
    {
        r.push(w[i]);
        proof {
            assert(r@ =~= w@.subrange(lo as int, i as int + 1));
        }
        i = i + 1;
    }
    proof {
        assert(r@ == trim_ends(w@));
    }
    r
}

/// One collapse pass: replace each leftmost run of exactly `k` strict vowels
/// by `'a'`.
pub fn collapse(w: &Vec<char>, k: usize) -> (r: Vec<char>)
    requires
        2 <= k <= 3,
    ensures
        r@ == collapse_runs(w@, k as int),
{
    let mut out: Vec<char> = Vec::new();
    let mut buf: Vec<char> = Vec::new();
    let mut i: usize = 0;
    while i < w.len()
        invariant
            i <= w@.len(),
            2 <= k <= 3,
            out@ == collapse_scan(w@.take(i as int), k as int).0,
            buf@ == collapse_scan(w@.take(i as int), k as int).1,
        decreases w@.len() - i,
    {
        proof {
            assert(w@.take(i as int + 1).drop_last() =~= w@.take(i as int));
            assert(w@.take(i as int + 1).last() == w@[i as int]);
        }
        let c = w[i];
        if vowel_char(c) {
            if buf.len() == k - 1 {
                out.push('a');
                buf.clear();
            } else {
                buf.push(c);
            }
        } else {
            buf.push(c);
            out.append(&mut buf);
        }
        i = i + 1;
    }
    proof {
        assert(w@.take(w@.len() as int) =~= w@);
    }
    out.append(&mut buf);
    out
}

/// Number of maximal vowel-class runs.
pub fn run_count(w: &Vec<char>) -> (n: usize)
    ensures
        n == vowel_run_count(w@),
{
    let mut n: usize = 0;
    let mut in_run: bool = false;
    let mut i: usize = 0;
    while i < w.len()
        invariant
            i <= w@.len(),
            run_scan(w@.take(i as int)) == (n as nat, in_run),
        decreases w@.len() - i,
    {
        proof {
            lemma_run_scan_le(w@.take(i as int));
            assert(w@.take(i as int).len() == i);
            assert(w@.take(i as int + 1).drop_last() =~= w@.take(i as int));
            assert(w@.take(i as int + 1).last() == w@[i as int]);
        }
        if vowel_y_char(w[i]) {
            if !in_run {
                n = n + 1;
                in_run = true;
            }
        } else {
            in_run = false;
        }
        i = i + 1;
    }
    proof {
        assert(w@.take(w@.len() as int) =~= w@);
    }
    n
}

/// Syllable estimate for an already case-folded token.
pub fn syllables_folded(w: &Vec<char>) -> (n: usize)
    ensures
        n == syllable_estimate(w@),
        n >= 1,
{
    let t = trim_token(w);
    let c3 = collapse(&t, 3);
    let c2 = collapse(&c3, 2);
    let runs = run_count(&c2);
    if runs == 0 {
        1
    } else {
        runs
    }
}

/// Heuristic syllable count of a token: the token is case folded, then
/// estimated. Always at least one, even for tokens without vowels.
pub fn count_syllables(word: &str) -> (n: usize)
    ensures
        n == syllable_estimate(lower_of(word@)),
        n >= 1,
{
    let folded = fold_case(word);
    let chars = chars_vec(folded.as_str());
    syllables_folded(&chars)
}

} // verus!
