use vstd::arithmetic::div_mod::{lemma_div_is_ordered, lemma_div_multiples_vanish};
use vstd::arithmetic::mul::{lemma_mul_inequality, lemma_mul_is_commutative};
use vstd::prelude::*;

verus! {

/// One stage of the pipeline, `x * m / d`, keeps the order of its input.
pub proof fn lemma_scale_monotone(a: int, b: int, m: int, d: int)
    requires
        0 <= a <= b,
        0 <= m,
        0 < d,
    ensures
        0 <= a * m <= b * m,
        0 <= a * m / d <= b * m / d,
{
    lemma_mul_inequality(0, a, m);
    lemma_mul_inequality(a, b, m);
    lemma_div_is_ordered(0, a * m, d);
    lemma_div_is_ordered(a * m, b * m, d);
}

/// One stage of the pipeline, `x * m / d`, keeps the order of its multiplier.
pub proof fn lemma_scale_monotone_factor(x: int, m1: int, m2: int, d: int)
    requires
        0 <= x,
        0 <= m1 <= m2,
        0 < d,
    ensures
        0 <= x * m1 <= x * m2,
        0 <= x * m1 / d <= x * m2 / d,
{
    lemma_mul_is_commutative(x, m1);
    lemma_mul_is_commutative(x, m2);
    lemma_scale_monotone(m1, m2, x, d);
}

/// Multiplying by `n` and then dividing by `n` gives the input back.
pub proof fn lemma_scale_identity(x: int, n: int)
    requires
        0 < n,
    ensures
        x * n / n == x,
{
    lemma_mul_is_commutative(x, n);
    lemma_div_multiples_vanish(x, n);
}

} // verus!
