//! Frequency statistics over the folded tokens: occurrence counts, the number
//! of distinct tokens, and the most common token.

use vstd::prelude::*;

verus! {

/// Number of occurrences of `t` in `ts`.
pub open spec fn count_occ(ts: Seq<Seq<char>>, t: Seq<char>) -> nat
    decreases ts.len(),
{
    if ts.len() == 0 {
        0
    } else {
        count_occ(ts.drop_last(), t) + if ts.last() == t {
            1nat
        } else {
            0nat
        }
    }
}

/// Number of distinct values in `ts`.
pub open spec fn unique_count(ts: Seq<Seq<char>>) -> nat
    decreases ts.len(),
{
    if ts.len() == 0 {
        0
    } else {
        unique_count(ts.drop_last()) + if ts.drop_last().contains(ts.last()) {
            0nat
        } else {
            1nat
        }
    }
}

/// `i` is the first index whose value has the highest occurrence count.
pub open spec fn is_first_max(ts: Seq<Seq<char>>, i: int) -> bool {
    &&& 0 <= i < ts.len()
    &&& forall|j: int| 0 <= j < ts.len() ==> count_occ(ts, #[trigger] ts[j]) <= count_occ(
        ts,
        ts[i],
    )
    &&& forall|j: int|
        0 <= j < ts.len() && count_occ(ts, #[trigger] ts[j]) == count_occ(ts, ts[i]) ==> i <= j
}

/// The most common value of `ts`; a tie goes to the value whose first
/// occurrence comes first. The empty sequence gives the empty value.
pub open spec fn most_common_of(ts: Seq<Seq<char>>) -> Seq<char> {
    if ts.len() == 0 {
        Seq::<char>::empty()
    } else {
        ts[choose|i: int| is_first_max(ts, i)]
    }
}

pub proof fn lemma_first_max_unique(ts: Seq<Seq<char>>, i: int, j: int)
    requires
        is_first_max(ts, i),
        is_first_max(ts, j),
    ensures
        i == j,
{
    assert(count_occ(ts, ts[i]) <= count_occ(ts, ts[j]));
    assert(count_occ(ts, ts[j]) <= count_occ(ts, ts[i]));
    assert(i <= j);
    assert(j <= i);
}

/// Count how often `t` occurs among the first `k` elements of `ts`.
pub fn count_in_prefix(ts: &Vec<String>, k: usize, t: &String) -> (c: usize)
    requires
        k <= ts@.len(),
    ensures
        c == count_occ(ts.deep_view().take(k as int), t@),
        c <= k,
{
    let ghost d = ts.deep_view();
    let mut c: usize = 0;
    let mut j: usize = 0;
    while j < k
        invariant
            k <= ts@.len(),
            d == ts.deep_view(),
            j <= k,
            c <= j,
            c == count_occ(d.take(j as int), t@),
        decreases k - j,
    {
        proof {
            assert(d.take(j as int + 1).drop_last() =~= d.take(j as int));
            assert(d.take(j as int + 1).last() == d[j as int]);
        }
        if ts[j] == *t {
            c = c + 1;
        }
        j = j + 1;
    }
    c
}

/// Does `t` occur among the first `k` elements of `ts`?
pub fn occurs_in_prefix(ts: &Vec<String>, k: usize, t: &String) -> (r: bool)
    requires
        k <= ts@.len(),
    ensures
        r == ts.deep_view().take(k as int).contains(t@),
{
    let ghost d = ts.deep_view();
    let mut j: usize = 0;
    while j < k
        invariant
            k <= ts@.len(),
            d == ts.deep_view(),
            j <= k,
            forall|j2: int| 0 <= j2 < j ==> #[trigger] d[j2] != t@,
        decreases k - j,
    {
        if ts[j] == *t {
            proof {
                assert(d.take(k as int)[j as int] == d[j as int]);
            }
            return true;
        }
        j = j + 1;
    }
    proof {
        assert forall|j2: int| 0 <= j2 < k implies #[trigger] d.take(k as int)[j2] != t@ by {
            assert(d.take(k as int)[j2] == d[j2]);
        }
    }
    false
}

/// Number of distinct values in `ts`.
pub fn unique_words(ts: &Vec<String>) -> (u: usize)
    ensures
        u == unique_count(ts.deep_view()),
{
    let ghost d = ts.deep_view();
    let mut u: usize = 0;
    let mut i: usize = 0;
    while i < ts.len()
        invariant
            d == ts.deep_view(),
            i <= d.len(),
            u <= i,
            u == unique_count(d.take(i as int)),
        decreases d.len() - i,
    {
        proof {
            assert(d.take(i as int + 1).drop_last() =~= d.take(i as int));
            assert(d.take(i as int + 1).last() == d[i as int]);
        }
        let seen = occurs_in_prefix(ts, i, &ts[i]);
        if !seen {
            u = u + 1;
        }
        i = i + 1;
    }
    proof {
        assert(d.take(d.len() as int) =~= d);
    }
    u
}

/// The most common value of `ts`, ties to the first occurrence; the empty
/// string when `ts` is empty.
pub fn most_common(ts: &Vec<String>) -> (r: String)
    ensures
        r@ == most_common_of(ts.deep_view()),
{
    let ghost d = ts.deep_view();
    if ts.len() == 0 {
        return String::new();
    }
    let n = ts.len();
    let mut best_i: usize = 0;
    let mut best_c: usize = count_in_prefix(ts, n, &ts[0]);
    let mut i: usize = 1;
    proof {
        assert(d.take(n as int) =~= d);
    }
    while i < n
        invariant
            d == ts.deep_view(),
            n == d.len(),
            0 < n,
            1 <= i <= n,
            best_i < i,
            best_c == count_occ(d, d[best_i as int]),
            forall|j: int| 0 <= j < i ==> count_occ(d, #[trigger] d[j]) <= best_c,
            forall|j: int| 0 <= j < best_i ==> count_occ(d, #[trigger] d[j]) < best_c,
        decreases n - i,
    {
        let c = count_in_prefix(ts, n, &ts[i]);
        proof {
            assert(d.take(n as int) =~= d);
        }
        if c > best_c {
            best_i = i;
            best_c = c;
        }
        i = i + 1;
    }
    proof {
        assert(is_first_max(d, best_i as int));
        let w = choose|k: int| is_first_max(d, k);
        lemma_first_max_unique(d, best_i as int, w);
    }
    ts[best_i].clone()
}

} // verus!
