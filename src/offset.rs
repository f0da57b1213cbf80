use vstd::prelude::*;
use vstd::arithmetic::div_mod::{
    lemma_fundamental_div_mod, lemma_fundamental_div_mod_converse, lemma_mod_bound,
};
use crate::line::minor_offset;

verus! {

/// `minor_offset(i, minor, major)` is the one `k` with
/// `2 * major * k <= 2 * i * minor + major - 1 < 2 * major * (k + 1)`.
pub proof fn lemma_offset_bounds(i: int, minor: int, major: int)
    requires
        major > 0,
    ensures
        2 * major * minor_offset(i, minor, major) <= 2 * i * minor + major - 1,
        2 * i * minor + major - 1 < 2 * major * (minor_offset(i, minor, major) + 1),
{
    let n = 2 * i * minor + major - 1;
    let q = n / (2 * major);
    lemma_fundamental_div_mod(n, 2 * major);
    lemma_mod_bound(n, 2 * major);
    assert(2 * major * q <= n < 2 * major * (q + 1)) by (nonlinear_arith)
        requires
            n == (2 * major) * q + n % (2 * major),
            0 <= n % (2 * major) < 2 * major,
    ;
}

/// The converse of `lemma_offset_bounds`: bounds on `k` fix the offset.
pub proof fn lemma_offset_unique(i: int, minor: int, major: int, k: int)
    requires
        major > 0,
        2 * major * k <= 2 * i * minor + major - 1 < 2 * major * (k + 1),
    ensures
        minor_offset(i, minor, major) == k,
{
    let n = 2 * i * minor + major - 1;
    let r = n - k * (2 * major);
    assert(k * (2 * major) == 2 * major * k) by (nonlinear_arith);
    assert(2 * major * (k + 1) == 2 * major * k + 2 * major) by (nonlinear_arith);
    lemma_fundamental_div_mod_converse(n, 2 * major, k, r);
}

/// Along a segment whose minor span is at most its major span, the offset
/// stays between 0 and the minor span.
pub proof fn lemma_offset_range(i: int, minor: int, major: int)
    requires
        0 <= minor <= major,
        0 < major,
        0 <= i <= major,
    ensures
        0 <= minor_offset(i, minor, major) <= minor,
{
    let k = minor_offset(i, minor, major);
    lemma_offset_bounds(i, minor, major);
    assert(0 <= k <= minor) by (nonlinear_arith)
        requires
            2 * major * k <= 2 * i * minor + major - 1,
            2 * i * minor + major - 1 < 2 * major * (k + 1),
            0 <= minor <= major,
            0 < major,
            0 <= i <= major,
    ;
}

/// One step of the error-term recurrence: with `d` twice the signed error
/// of the pixel at step `i`, the offset moves on by one exactly when `d > 0`.
pub proof fn lemma_offset_step(i: int, minor: int, major: int)
    requires
        0 <= minor <= major,
        0 < major,
        0 <= i,
    ensures
        ({
            let k = minor_offset(i, minor, major);
            let d = 2 * minor * (i + 1) - major - 2 * major * k;
            &&& minor_offset(i + 1, minor, major) == if d > 0 {
                k + 1
            } else {
                k
            }
            &&& -2 * major < d <= 2 * minor
        }),
{
    let k = minor_offset(i, minor, major);
    let d = 2 * minor * (i + 1) - major - 2 * major * k;
    lemma_offset_bounds(i, minor, major);
    assert(2 * (i + 1) * minor == 2 * i * minor + 2 * minor) by (nonlinear_arith);
    assert(2 * major * (k + 1) == 2 * major * k + 2 * major) by (nonlinear_arith);
    assert(2 * major * (k + 2) == 2 * major * k + 4 * major) by (nonlinear_arith);
    assert(2 * minor * (i + 1) == 2 * i * minor + 2 * minor) by (nonlinear_arith);
    if d > 0 {
        lemma_offset_unique(i + 1, minor, major, k + 1);
    } else {
        lemma_offset_unique(i + 1, minor, major, k);
    }
}

} // verus!
