//! Integer square root, used for Euclidean magnitudes of axis triples.

use vstd::prelude::*;

verus! {

/// `r` is the integer square root of `n`: the largest integer whose square
/// does not exceed `n`.
pub open spec fn is_isqrt(n: int, r: int) -> bool {
    0 <= r && r * r <= n && n < (r + 1) * (r + 1)
}

/// The integer square root of `n` (meaningful for `n >= 0`).
pub closed spec fn spec_isqrt(n: int) -> int {
    choose|r: int| is_isqrt(n, r)
}

/// For every non-negative `n` an integer square root exists, and
/// `spec_isqrt` denotes it.
pub proof fn lemma_isqrt_exists(n: int)
    requires
        n >= 0,
    ensures
        is_isqrt(n, spec_isqrt(n)),
    decreases n,
{
    if n == 0 {
        assert(is_isqrt(0, 0));
    } else {
        lemma_isqrt_exists(n - 1);
        let r = spec_isqrt(n - 1);
        if (r + 1) * (r + 1) <= n {
            assert(n - 1 < (r + 1) * (r + 1));
            assert(n == (r + 1) * (r + 1));
            assert((r + 2) * (r + 2) > n) by (nonlinear_arith)
                requires
                    n == (r + 1) * (r + 1) && r >= 0,
            ;
            assert(is_isqrt(n, r + 1));
        } else {
            assert(is_isqrt(n, r));
        }
    }
    assert(exists|r: int| is_isqrt(n, r));
}

/// Two integer square roots of the same number are equal.
pub proof fn lemma_isqrt_unique(n: int, r: int)
    requires
        n >= 0,
        is_isqrt(n, r),
    ensures
        r == spec_isqrt(n),
{
    lemma_isqrt_exists(n);
    let s = spec_isqrt(n);
    assert(r == s) by (nonlinear_arith)
        requires
            0 <= r && r * r <= n && n < (r + 1) * (r + 1) && 0 <= s && s * s <= n && n < (s + 1)
                * (s + 1),
    ;
}

/// Computes the integer square root of `n` by binary search.
pub fn isqrt_u64(n: u64) -> (r: u64)
    ensures
        r as int == spec_isqrt(n as int),
        is_isqrt(n as int, r as int),
{
    let mut lo: u64 = 0;
    let mut hi: u64 = 0x1_0000_0000;
    assert((hi as int) * (hi as int) > n as int);
    while hi - lo > 1
        invariant
            0 <= lo < hi <= 0x1_0000_0000,
            (lo as int) * (lo as int) <= n as int,
            (n as int) < (hi as int) * (hi as int),
        decreases hi - lo,
    {
        let mid = lo + (hi - lo) / 2;
        assert(mid as int * mid as int <= 0xffff_ffff * 0xffff_ffff) by (nonlinear_arith)
            requires
                mid <= 0xffff_ffff,
        ;
        if mid * mid <= n {
            lo = mid;
        } else {
            hi = mid;
        }
    }
    proof {
        lemma_isqrt_unique(n as int, lo as int);
    }
    lo
}

} // verus!
