//! Division that rounds up, and the facts about it that the engine uses.

use vstd::arithmetic::div_mod::{
    lemma_div_multiples_vanish_quotient, lemma_fundamental_div_mod,
    lemma_fundamental_div_mod_converse_div,
};
use vstd::prelude::*;

verus! {

/// `n / d` rounded up: how many pieces of size `d` it takes to cover `n`.
pub open spec fn ceil_div(n: int, d: int) -> int {
    (n + d - 1) / d
}

/// Nothing takes no piece to cover.
pub proof fn lemma_ceil_div_zero(d: int)
    requires
        d > 0,
    ensures
        ceil_div(0, d) == 0,
{
    assert((d - 1) / d == 0) by (nonlinear_arith)
        requires
            d > 0,
    ;
}

/// The pieces cover `n`, and one piece fewer would not.
pub proof fn lemma_ceil_div_bounds(n: int, d: int)
    requires
        d > 0,
        n >= 0,
    ensures
        ceil_div(n, d) >= 0,
        n <= ceil_div(n, d) * d,
        n > 0 ==> (ceil_div(n, d) - 1) * d < n,
{
    let q = (n + d - 1) / d;
    assert(q >= 0 && n <= q * d && (q - 1) * d < n + 0 * q) by (nonlinear_arith)
        requires
            d > 0,
            n >= 0,
            q == (n + d - 1) / d,
    ;
}

/// Taking one whole piece away leaves one piece fewer to cover.
pub proof fn lemma_ceil_div_step(n: int, d: int)
    requires
        0 < d < n,
    ensures
        ceil_div(n, d) == ceil_div(n - d, d) + 1,
{
    assert((n + d - 1) / d == (n - d + d - 1) / d + 1) by (nonlinear_arith)
        requires
            0 < d < n,
    ;
}

/// The count of pieces is the only `k` with `(k - 1) * d < n <= k * d`.
pub proof fn lemma_ceil_div_unique(n: int, d: int, k: int)
    requires
        d > 0,
        (k - 1) * d < n <= k * d,
    ensures
        ceil_div(n, d) == k,
{
    assert((n + d - 1) / d == k) by (nonlinear_arith)
        requires
            d > 0,
            (k - 1) * d < n,
            n <= k * d,
    ;
}

/// The quotient of a product, from the quotient and the remainder of one
/// factor: `a * b / d` is `(a / d) * b` and what the remainder adds.
pub proof fn lemma_scaled_div(a: int, b: int, d: int)
    requires
        a >= 0,
        b >= 0,
        d > 0,
    ensures
        (a * b) / d == (a / d) * b + ((a % d) * b) / d,
        0 <= a % d < d,
        0 <= a / d,
        0 <= ((a % d) * b) / d,
{
    let q = a / d;
    let r = a % d;
    let q2 = (r * b) / d;
    let r2 = (r * b) % d;
    lemma_fundamental_div_mod(a, d);
    lemma_fundamental_div_mod(r * b, d);
    assert(0 <= r < d && 0 <= r2 < d);
    assert(a * b == (q * b + q2) * d + r2) by (nonlinear_arith)
        requires
            a == d * q + r,
            r * b == d * q2 + r2,
    ;
    lemma_fundamental_div_mod_converse_div(a * b, d, q * b + q2, r2);
    assert(q >= 0 && q2 >= 0) by (nonlinear_arith)
        requires
            a >= 0,
            b >= 0,
            d > 0,
            q == a / d,
            r == a % d,
            0 <= r,
            q2 == (r * b) / d,
    ;
}

/// A factor common to both sides of a division does not change it.
pub proof fn lemma_cancel_common_factor(k: int, a: int, d: int)
    requires
        k > 0,
        a >= 0,
        d > 0,
    ensures
        (a * k) / (d * k) == a / d,
{
    lemma_div_multiples_vanish_quotient(k, a, d);
    assert(k * a == a * k && k * d == d * k) by (nonlinear_arith);
}

} // verus!
