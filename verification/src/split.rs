//! The payment split calculator: how a total divides into the initial
//! payment and the remainder.

use vstd::arithmetic::div_mod::{
    lemma_div_is_ordered, lemma_div_multiples_vanish, lemma_fundamental_div_mod,
    lemma_hoist_over_denominator,
};
use vstd::arithmetic::mul::{lemma_mul_inequality, lemma_mul_is_distributive_add_other_way};
use vstd::prelude::*;

verus! {

/// The initial payment owed for a total and a percentage: the percentage of
/// the total, truncated toward zero.  The remainder is always `total` minus
/// this, so truncation can never leak value.
pub open spec fn split_initial(total: int, percent: int) -> int {
    total * percent / 100
}

/// The initial payment lies between zero and the whole total.
pub proof fn lemma_split_initial_bounds(total: int, percent: int)
    requires
        total >= 0,
        0 <= percent <= 100,
    ensures
        0 <= split_initial(total, percent) <= total,
{
    lemma_mul_inequality(0, percent, total);
    lemma_div_is_ordered(0, total * percent, 100);
    lemma_mul_inequality(percent, 100, total);
    lemma_div_is_ordered(total * percent, total * 100, 100);
    lemma_div_multiples_vanish(total, 100);
    assert(total * percent <= 100 * total) by {
        assert(total * 100 == 100 * total) by (nonlinear_arith);
    }
    assert(total * 0 == 0) by (nonlinear_arith);
    assert(0 * percent == 0) by (nonlinear_arith);
}

/// Writing the split as `(total / 100) * percent + ((total % 100) * percent) / 100`
/// (the overflow-free form the executable code uses) gives exactly
/// `total * percent / 100`.
proof fn lemma_split_decomposition(total: int, percent: int)
    requires
        total >= 0,
        0 <= percent <= 100,
    ensures
        (total / 100) * percent + ((total % 100) * percent) / 100
            == split_initial(total, percent),
{
    let q = total / 100;
    let r = total % 100;
    lemma_fundamental_div_mod(total, 100);
    assert(total == 100 * q + r);
    assert(total * percent == (100 * q) * percent + r * percent) by {
        lemma_mul_is_distributive_add_other_way(percent, 100 * q, r);
    }
    assert((100 * q) * percent == (q * percent) * 100) by (nonlinear_arith);
    lemma_hoist_over_denominator(r * percent, q * percent, 100);
}

/// Compute the payment split: the initial payment (the truncated percentage
/// of the total) and the remainder that together restore the whole total.
pub fn split(total: i128, percent: u32) -> (r: (i128, i128))
    requires
        total >= 0,
        percent <= 100,
    ensures
        r.0 == split_initial(total as int, percent as int),
        r.1 == total - r.0,
        0 <= r.0 <= total,
{
    let p = percent as i128;
    let q = total / 100;
    let r100 = total % 100;
    proof {
        lemma_split_decomposition(total as int, percent as int);
        lemma_split_initial_bounds(total as int, percent as int);
        assert(q * p <= q * 100) by {
            lemma_mul_inequality(p as int, 100, q as int);
        }
        assert(q * 100 <= total) by {
            lemma_fundamental_div_mod(total as int, 100);
            assert(100 * q == q * 100) by (nonlinear_arith);
        }
        assert(q * p >= 0) by (nonlinear_arith)
            requires q >= 0 && p >= 0;
        assert(0 <= r100 * p <= 9900) by (nonlinear_arith)
            requires 0 <= r100 < 100 && 0 <= p <= 100;
    }
    let initial = q * p + (r100 * p) / 100;
    (initial, total - initial)
}

} // verus!
