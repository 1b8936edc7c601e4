//! Truncating integer division, a prefix lemma for sequences, and the
//! small facts about them that the request builder and the position
//! estimator rely on.

use vstd::prelude::*;

verus! {

use vstd::arithmetic::div_mod::{
    lemma_div_is_ordered, lemma_div_multiples_vanish_quotient, lemma_div_by_multiple,
    lemma_div_pos_is_pos,
};

/// Integer division truncating toward zero (the behaviour of `/` on
/// Rust's signed machine integers), for a positive divisor.
pub open spec fn tdiv(n: int, d: int) -> int
    recommends
        d > 0,
{
    if n >= 0 {
        n / d
    } else {
        -((-n) / d)
    }
}

/// Truncating division is unchanged when numerator and denominator are
/// scaled by the same positive factor.
pub proof fn lemma_tdiv_scale(n: int, d: int, k: int)
    requires
        d > 0,
        k > 0,
    ensures
        tdiv(n * k, d * k) == tdiv(n, d),
{
    assert(d * k == k * d) by (nonlinear_arith);
    if n >= 0 {
        lemma_div_multiples_vanish_quotient(k, n, d);
        assert(n * k == k * n) by (nonlinear_arith);
        assert(n * k >= 0) by (nonlinear_arith)
            requires
                n >= 0,
                k > 0,
        ;
    } else {
        let m = -n;
        lemma_div_multiples_vanish_quotient(k, m, d);
        assert(m * k == k * m) by (nonlinear_arith);
        assert(n * k == -(m * k)) by (nonlinear_arith)
            requires
                m == -n,
        ;
        assert(n * k < 0) by (nonlinear_arith)
            requires
                n < 0,
                k > 0,
        ;
    }
}

/// An upper bound on the numerator scales down through the division.
pub proof fn lemma_tdiv_upper(n: int, d: int, bound: int)
    requires
        d > 0,
        bound >= 0,
        n <= bound * d,
    ensures
        tdiv(n, d) <= bound,
{
    if n >= 0 {
        lemma_div_is_ordered(n, bound * d, d);
        lemma_div_by_multiple(bound, d);
    } else {
        lemma_div_pos_is_pos(-n, d);
    }
}

/// A lower bound on the numerator scales down through the division.
pub proof fn lemma_tdiv_lower(n: int, d: int, bound: int)
    requires
        d > 0,
        bound >= 0,
        n >= -(bound * d),
    ensures
        tdiv(n, d) >= -bound,
{
    if n >= 0 {
        lemma_div_pos_is_pos(n, d);
    } else {
        lemma_div_is_ordered(-n, bound * d, d);
        lemma_div_by_multiple(bound, d);
    }
}

/// A quotient is at least `k` when the numerator reaches `k` times the
/// divisor.
pub proof fn lemma_div_at_least(x: int, d: int, k: int)
    requires
        d > 0,
        k >= 0,
        k * d <= x,
    ensures
        x / d >= k,
{
    lemma_div_is_ordered(k * d, x, d);
    lemma_div_by_multiple(k, d);
}

/// Extending a prefix of a sequence by one element is a push.
pub proof fn lemma_take_step<T>(s: Seq<T>, i: int)
    requires
        0 <= i < s.len(),
    ensures
        s.take(i + 1) == s.take(i).push(s[i]),
{
    assert(s.take(i + 1) =~= s.take(i).push(s[i]));
}

} // verus!
