//! Integer square root, the damping function applied to a token balance.

use vstd::prelude::*;

verus! {

/// `r` is the largest natural number whose square does not exceed `n`.
pub open spec fn is_floor_sqrt(n: nat, r: nat) -> bool {
    r * r <= n && n < (r + 1) * (r + 1)
}

/// The floor of the square root of `n`.
pub open spec fn floor_sqrt(n: nat) -> nat {
    choose|r: nat| is_floor_sqrt(n, r)
}

/// At most one number is the floor square root of `n`.
pub proof fn lemma_floor_sqrt_unique(n: nat, r1: nat, r2: nat)
    requires
        is_floor_sqrt(n, r1),
        is_floor_sqrt(n, r2),
    ensures
        r1 == r2,
{
    if r1 < r2 {
        assert((r1 + 1) * (r1 + 1) <= r2 * r2) by (nonlinear_arith)
            requires
                r1 + 1 <= r2,
        ;
    } else if r2 < r1 {
        assert((r2 + 1) * (r2 + 1) <= r1 * r1) by (nonlinear_arith)
            requires
                r2 + 1 <= r1,
        ;
    }
}

/// Any witness of `is_floor_sqrt` is the value of `floor_sqrt`.
pub proof fn lemma_floor_sqrt_is(n: nat, r: nat)
    requires
        is_floor_sqrt(n, r),
    ensures
        floor_sqrt(n) == r,
{
    let c = floor_sqrt(n);
    assert(is_floor_sqrt(n, c));
    lemma_floor_sqrt_unique(n, c, r);
}

/// Every natural number has a floor square root, and `floor_sqrt` is it.
pub proof fn lemma_floor_sqrt_exists(n: nat)
    ensures
        is_floor_sqrt(n, floor_sqrt(n)),
    decreases n,
{
    if n == 0 {
        assert(is_floor_sqrt(0, 0)) by (nonlinear_arith);
    } else {
        lemma_floor_sqrt_exists((n - 1) as nat);
        let r = floor_sqrt((n - 1) as nat);
        if (r + 1) * (r + 1) <= n {
            assert(is_floor_sqrt(n, r + 1)) by (nonlinear_arith)
                requires
                    (r + 1) * (r + 1) <= n,
                    n - 1 < (r + 1) * (r + 1),
            ;
        } else {
            assert(is_floor_sqrt(n, r));
        }
    }
}

/// A positive number has a positive floor square root, which does not
/// exceed the number.
pub proof fn lemma_floor_sqrt_positive(n: nat)
    requires
        n >= 1,
    ensures
        1 <= floor_sqrt(n) <= n,
{
    lemma_floor_sqrt_exists(n);
    let r = floor_sqrt(n);
    assert(1 <= r <= n) by (nonlinear_arith)
        requires
            n >= 1,
            r * r <= n,
            n < (r + 1) * (r + 1),
    ;
}

/// Returns the largest `r` with `r * r <= n`, by binary search over
/// `[1, n / 2]` with the squares computed in 128 bits.
pub fn integer_sqrt(n: u64) -> (r: u64)
    ensures
        is_floor_sqrt(n as nat, r as nat),
        r as nat == floor_sqrt(n as nat),
        r <= u32::MAX,
{
    if n == 0 {
        proof {
            assert(is_floor_sqrt(0, 0)) by (nonlinear_arith);
            lemma_floor_sqrt_is(0, 0);
        }
        return 0;
    }
    if n < 4 {
        proof {
            assert(is_floor_sqrt(n as nat, 1)) by (nonlinear_arith)
                requires
                    1 <= n < 4,
            ;
            lemma_floor_sqrt_is(n as nat, 1);
        }
        return 1;
    }
    let mut lo: u64 = 2;
    let mut hi: u64 = n / 2;
    let mut best: u64 = 1;
    assert(n < (hi + 1) * (hi + 1)) by (nonlinear_arith)
        requires
            n >= 4,
            2 * hi + 1 >= n,
            hi >= 2,
    ;
    while lo <= hi
        invariant
            n >= 4,
            2 <= lo <= hi + 1,
            hi <= n / 2,
            best + 1 == lo,
            best * best <= n,
            n < (hi + 1) * (hi + 1),
        decreases hi + 1 - lo,
    {
        let mid: u64 = lo + (hi - lo) / 2;
        assert(mid * mid <= u128::MAX) by (nonlinear_arith)
            requires
                mid <= u64::MAX,
        ;
        let square: u128 = (mid as u128) * (mid as u128);
        if square <= n as u128 {
            best = mid;
            lo = mid + 1;
        } else {
            hi = mid - 1;
        }
    }
    proof {
        lemma_floor_sqrt_is(n as nat, best as nat);
        if best > u32::MAX {
            assert(best * best > u64::MAX) by (nonlinear_arith)
                requires
                    best >= 0x1_0000_0000u64,
            ;
        }
    }
    best
}

} // verus!
