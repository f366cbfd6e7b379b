//! Exact arithmetic on values wider than a machine word. The readability
//! thresholds compare products of three counts; such a product can exceed
//! `u128`, so it is carried as a pair `hi * 2^64 + lo` of `u128` limbs.

use vstd::prelude::*;
use vstd::arithmetic::div_mod::{lemma_fundamental_div_mod, lemma_mod_bound};

verus! {

/// The limb base, 2^64.
pub const BASE: u128 = 0x1_0000_0000_0000_0000;

/// Bound on the factor `a` of a term: 2^66.
pub const TERM_FACTOR_BOUND: u128 = 0x4_0000_0000_0000_0000;

/// Bound on the high limb of a single term: 2^79.
pub const TERM_HI_BOUND: u128 = 0x8000_0000_0000_0000_0000;

/// A non-negative integer `hi * 2^64 + lo`.
#[derive(Clone, Copy)]
pub struct Wide {
    pub hi: u128,
    pub lo: u128,
}

pub open spec fn wide_val(w: Wide) -> int {
    w.hi * (BASE as int) + w.lo
}

/// Normal form: the low limb below the base.
pub open spec fn wide_norm(w: Wide) -> bool {
    w.lo < BASE
}

/// The product `k * a * b`, exactly.
pub fn wide_term(k: u64, a: u128, b: u64) -> (r: Wide)
    requires
        k <= 4096,
        a < TERM_FACTOR_BOUND,
    ensures
        wide_norm(r),
        r.hi < TERM_HI_BOUND,
        wide_val(r) == k * a * b,
{
    let ah = a / BASE;
    let al = a % BASE;
    proof {
        lemma_fundamental_div_mod(a as int, BASE as int);
        lemma_mod_bound(a as int, BASE as int);
        assert(ah <= 3);
        assert((al as int) * (b as int) <= (BASE - 1) * 0xFFFF_FFFF_FFFF_FFFFu64) by (
        nonlinear_arith)
            requires
                0 <= al as int <= (BASE - 1) as int,
                0 <= b as int <= 0xFFFF_FFFF_FFFF_FFFFu64 as int,
        ;
    }
    let p = al * (b as u128);
    let ph = p / BASE;
    let pl = p % BASE;
    proof {
        lemma_fundamental_div_mod(p as int, BASE as int);
        lemma_mod_bound(p as int, BASE as int);
        assert(ph < BASE);
        assert((ah as int) * (b as int) <= 3 * (0xFFFF_FFFF_FFFF_FFFFu64 as int)) by (
        nonlinear_arith)
            requires
                0 <= ah as int <= 3,
                0 <= b as int <= 0xFFFF_FFFF_FFFF_FFFFu64 as int,
        ;
        assert((k as int) * ((ah as int) * (b as int) + ph as int) <= 4096 * (4
            * (BASE as int))) by (nonlinear_arith)
            requires
                0 <= k as int <= 4096,
                0 <= (ah as int) * (b as int) + ph as int <= 4 * (BASE as int),
                BASE as int == 0x1_0000_0000_0000_0000,
        ;
        assert((k as int) * (pl as int) <= 4096 * ((BASE - 1) as int)) by (nonlinear_arith)
            requires
                0 <= k as int <= 4096,
                0 <= pl as int <= (BASE - 1) as int,
        ;
    }
    let hi_part = (k as u128) * (ah * (b as u128) + ph);
    let lo_part = (k as u128) * pl;
    let carry = lo_part / BASE;
    let lo = lo_part % BASE;
    proof {
        lemma_fundamental_div_mod(lo_part as int, BASE as int);
        lemma_mod_bound(lo_part as int, BASE as int);
        assert(carry <= 4096);
    }
    let hi = hi_part + carry;
    proof {
        assert((hi_part as int) * (BASE as int) + lo_part as int == (k as int) * (a as int) * (
        b as int)) by (nonlinear_arith)
            requires
                a as int == (ah as int) * (BASE as int) + al as int,
                (al as int) * (b as int) == (ph as int) * (BASE as int) + pl as int,
                hi_part as int == (k as int) * ((ah as int) * (b as int) + ph as int),
                lo_part as int == (k as int) * (pl as int),
        ;
    }
    Wide { hi, lo }
}

/// The sum of two terms.
pub fn wide_add(x: Wide, y: Wide) -> (r: Wide)
    requires
        wide_norm(x),
        wide_norm(y),
        x.hi < TERM_HI_BOUND,
        y.hi < TERM_HI_BOUND,
    ensures
        wide_norm(r),
        wide_val(r) == wide_val(x) + wide_val(y),
{
    let lo_sum = x.lo + y.lo;
    let carry = lo_sum / BASE;
    let lo = lo_sum % BASE;
    proof {
        lemma_fundamental_div_mod(lo_sum as int, BASE as int);
        lemma_mod_bound(lo_sum as int, BASE as int);
        assert(carry <= 1);
    }
    let hi = x.hi + y.hi + carry;
    Wide { hi, lo }
}

/// Compare two values in normal form.
pub fn wide_le(x: Wide, y: Wide) -> (r: bool)
    requires
        wide_norm(x),
        wide_norm(y),
    ensures
        r == (wide_val(x) <= wide_val(y)),
{
    if x.hi < y.hi {
        true
    } else if x.hi == y.hi {
        x.lo <= y.lo
    } else {
        false
    }
}

} // verus!
