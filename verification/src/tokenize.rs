//! Whitespace tokenization: a token is a maximal run of non-whitespace
//! characters, and empty tokens do not arise.

use vstd::prelude::*;
use crate::charclass::{is_blank, blank_char};

verus! {

/// State of the token scanner after reading a prefix of the text: the
/// completed tokens, and the pending token (empty when the last character
/// read was whitespace).
pub open spec fn token_scan(s: Seq<char>) -> (Seq<Seq<char>>, Seq<char>)
    decreases s.len(),
{
    if s.len() == 0 {
        (Seq::<Seq<char>>::empty(), Seq::<char>::empty())
    } else {
        let st = token_scan(s.drop_last());
        let c = s.last();
        if is_blank(c) {
            if st.1.len() > 0 {
                (st.0.push(st.1), Seq::<char>::empty())
            } else {
                (st.0, Seq::<char>::empty())
            }
        } else {
            (st.0, st.1.push(c))
        }
    }
}

/// The whitespace-delimited tokens of `s`, in order.
pub open spec fn tokens_of(s: Seq<char>) -> Seq<Seq<char>> {
    let st = token_scan(s);
    if st.1.len() > 0 {
        st.0.push(st.1)
    } else {
        st.0
    }
}

/// Sum of the character lengths of the tokens.
pub open spec fn sum_token_lens(ts: Seq<Seq<char>>) -> nat
    decreases ts.len(),
{
    if ts.len() == 0 {
        0
    } else {
        sum_token_lens(ts.drop_last()) + ts.last().len()
    }
}

pub proof fn lemma_sum_push(ts: Seq<Seq<char>>, t: Seq<char>)
    ensures
        sum_token_lens(ts.push(t)) == sum_token_lens(ts) + t.len(),
{
    assert(ts.push(t).drop_last() =~= ts);
    assert(ts.push(t).last() == t);
}

/// Tokens consume distinct characters of the text, and none is empty.
pub proof fn lemma_token_scan_bounds(s: Seq<char>)
    ensures
        sum_token_lens(token_scan(s).0) + token_scan(s).1.len() <= s.len(),
        forall|i: int|
            0 <= i < token_scan(s).0.len() ==> #[trigger] token_scan(s).0[i].len() > 0,
    decreases s.len(),
{
    if s.len() > 0 {
        lemma_token_scan_bounds(s.drop_last());
        let st = token_scan(s.drop_last());
        if is_blank(s.last()) && st.1.len() > 0 {
            lemma_sum_push(st.0, st.1);
            assert forall|i: int|
                0 <= i < st.0.push(st.1).len() implies #[trigger] st.0.push(st.1)[i].len()
                > 0 by {
                if i < st.0.len() {
                    assert(st.0.push(st.1)[i] == st.0[i]);
                }
            }
        }
    }
}

pub proof fn lemma_tokens_bounds(s: Seq<char>)
    ensures
        sum_token_lens(tokens_of(s)) <= s.len(),
        forall|i: int| 0 <= i < tokens_of(s).len() ==> #[trigger] tokens_of(s)[i].len() > 0,
        tokens_of(s).len() <= s.len(),
{
    lemma_token_scan_bounds(s);
    let st = token_scan(s);
    if st.1.len() > 0 {
        lemma_sum_push(st.0, st.1);
        assert forall|i: int|
            0 <= i < tokens_of(s).len() implies #[trigger] tokens_of(s)[i].len() > 0 by {
            if i < st.0.len() {
                assert(tokens_of(s)[i] == st.0[i]);
            }
        }
    }
    lemma_count_le_sum(tokens_of(s));
}

/// A sequence of non-empty tokens has no more tokens than total characters.
pub proof fn lemma_count_le_sum(ts: Seq<Seq<char>>)
    requires
        forall|i: int| 0 <= i < ts.len() ==> #[trigger] ts[i].len() > 0,
    ensures
        ts.len() <= sum_token_lens(ts),
    decreases ts.len(),
{
    if ts.len() > 0 {
        assert(forall|i: int|
            0 <= i < ts.drop_last().len() ==> #[trigger] ts.drop_last()[i] == ts[i]);
        lemma_count_le_sum(ts.drop_last());
    }
}

/// Sums over prefixes never exceed the sum over the whole sequence.
pub proof fn lemma_sum_take_le(ts: Seq<Seq<char>>, j: int)
    requires
        0 <= j <= ts.len(),
    ensures
        sum_token_lens(ts.take(j)) <= sum_token_lens(ts),
    decreases ts.len() - j,
{
    if j == ts.len() {
        assert(ts.take(j) =~= ts);
    } else {
        assert(ts.take(j + 1).drop_last() =~= ts.take(j));
        assert(ts.take(j + 1).last() == ts[j]);
        lemma_sum_take_le(ts, j + 1);
    }
}

/// Split `text` into its whitespace-delimited tokens.
pub fn tokenize(text: &str) -> (toks: Vec<String>)
    ensures
        toks.deep_view() == tokens_of(text@),
{
    let n = text.unicode_len();
    let mut toks: Vec<String> = Vec::new();
    let mut start: usize = 0;
    let mut in_tok: bool = false;
    let mut i: usize = 0;
    while i < n
        invariant
            n == text@.len(),
            i <= n,
            toks.deep_view() == token_scan(text@.take(i as int)).0,
            in_tok ==> start < i && token_scan(text@.take(i as int)).1 == text@.subrange(
                start as int,
                i as int,
            ),
            !in_tok ==> token_scan(text@.take(i as int)).1 == Seq::<char>::empty(),
        decreases n - i,
    {
        proof {
            assert(text@.take(i as int + 1).drop_last() =~= text@.take(i as int));
            assert(text@.take(i as int + 1).last() == text@[i as int]);
        }
        let ghost old_deep = toks.deep_view();
        let c = text.get_char(i);
        if blank_char(c) {
            if in_tok {
                let t = text.substring_char(start, i);
                let owned = t.to_owned();
                toks.push(owned);
                in_tok = false;
                proof {
                    assert(toks.deep_view() =~= old_deep.push(
                        text@.subrange(start as int, i as int),
                    ));
                }
            }
        } else {
            if !in_tok {
                start = i;
                in_tok = true;
            }
            proof {
                assert(text@.subrange(start as int, i as int).push(text@[i as int])
                    =~= text@.subrange(start as int, i as int + 1));
            }
        }
        i = i + 1;
    }
    proof {
        assert(text@.take(n as int) =~= text@);
    }
    if in_tok {
        let t = text.substring_char(start, n);
        let owned = t.to_owned();
        let ghost old_deep = toks.deep_view();
        toks.push(owned);
        proof {
            assert(toks.deep_view() =~= old_deep.push(
                text@.subrange(start as int, n as int),
            ));
        }
    }
    toks
}

} // verus!
