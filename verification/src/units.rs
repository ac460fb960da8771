//! Fixed-point units and the integer arithmetic the checks are built on.
//!
//! A coordinate is an `i64` counting thousandths of a world block. At that
//! scale every quantity the validator compares is an exact integer, so all
//! thresholds below are exact rationals written over integer constants.

use vstd::arithmetic::div_mod::lemma_fundamental_div_mod_converse;
use vstd::prelude::*;

verus! {

/// Number of fixed-point units in one world block.
pub const MILLIS_PER_BLOCK: i64 = 1000;

/// Largest coordinate magnitude, in milli-blocks, accepted by the pipeline.
/// Beyond this magnitude a double-precision coordinate no longer resolves
/// thousandths of a block, so nothing meaningful is lost by the bound.
pub const COORD_LIMIT_MILLIS: i64 = 9_000_000_000_000_000;

/// Largest magnitude of a single-tick coordinate delta: twice the
/// coordinate limit.
pub const DELTA_LIMIT_MILLIS: i64 = 18_000_000_000_000_000;

/// Upper bound on a single tick's horizontal displacement magnitude.
/// The squared horizontal distance is at most `2 * DELTA_LIMIT_MILLIS^2`,
/// whose square root is below this bound.
pub const MAG_LIMIT_MILLIS: i64 = 26_000_000_000_000_000;

/// The square of an integer.
pub open spec fn sq(x: int) -> int {
    x * x
}

/// `r` is the square root of `n` rounded down to an integer.
pub open spec fn is_floor_sqrt(n: int, r: int) -> bool {
    0 <= r && sq(r) <= n < sq(r + 1)
}

/// The square root of `n`, rounded down to an integer.
pub open spec fn spec_isqrt(n: int) -> int
    recommends
        0 <= n,
{
    choose|r: int| is_floor_sqrt(n, r)
}

/// At most one integer is the rounded-down square root of `n`.
proof fn lemma_floor_sqrt_unique(n: int, r1: int, r2: int)
    requires
        is_floor_sqrt(n, r1),
        is_floor_sqrt(n, r2),
    ensures
        r1 == r2,
{
    if r1 < r2 {
        assert((r1 + 1) * (r1 + 1) <= r2 * r2) by (nonlinear_arith)
            requires
                0 <= r1 + 1,
                r1 + 1 <= r2,
        ;
    }
    if r2 < r1 {
        assert((r2 + 1) * (r2 + 1) <= r1 * r1) by (nonlinear_arith)
            requires
                0 <= r2 + 1,
                r2 + 1 <= r1,
        ;
    }
}

/// A witness for `is_floor_sqrt` pins down `spec_isqrt`.
pub proof fn lemma_isqrt_is(n: int, r: int)
    requires
        is_floor_sqrt(n, r),
    ensures
        spec_isqrt(n) == r,
{
    assert(is_floor_sqrt(n, spec_isqrt(n))) by {
        assert(exists|x: int| is_floor_sqrt(n, x));
    }
    lemma_floor_sqrt_unique(n, spec_isqrt(n), r);
}

/// Integer square root, rounded down, by bisection.
pub fn isqrt(n: u128) -> (r: u64)
    ensures
        is_floor_sqrt(n as int, r as int),
        r as int == spec_isqrt(n as int),
{
    let mut lo: u128 = 0;
    let mut hi: u128 = if n < 0xffff_ffff_ffff_ffff {
        n
    } else {
        0xffff_ffff_ffff_ffff
    };
    proof {
        if n < 0xffff_ffff_ffff_ffff {
            assert((n as int + 1) * (n as int + 1) > n as int) by (nonlinear_arith)
                requires
                    n as int >= 0,
            ;
        }
    }
    while lo < hi
        invariant
            lo <= hi,
            hi <= 0xffff_ffff_ffff_ffffu128,
            sq(lo as int) <= n as int,
            (n as int) < sq(hi as int + 1),
        decreases hi - lo,
    {
        let half: u128 = (hi - lo + 1) / 2;
        let mid: u128 = lo + half;
        proof {
            assert(mid as int * mid as int
                <= 0xffff_ffff_ffff_ffffu128 as int * 0xffff_ffff_ffff_ffffu128 as int)
                by (nonlinear_arith)
                requires
                    0 <= mid as int <= 0xffff_ffff_ffff_ffffu128 as int,
            ;
        }
        let m2: u128 = mid * mid;
        if m2 <= n {
            lo = mid;
        } else {
            hi = mid - 1;
        }
    }
    let r: u64 = lo as u64;
    proof {
        lemma_isqrt_is(n as int, r as int);
    }
    r
}

/// Quotient of a milli-block coordinate by the block size, rounded toward
/// negative infinity, as whole-block voxel indices require.
pub fn block_floor(c: i64) -> (b: i64)
    requires
        -COORD_LIMIT_MILLIS - 2 * MILLIS_PER_BLOCK <= c <= COORD_LIMIT_MILLIS,
    ensures
        b == c as int / 1000,
        1000 * b <= c < 1000 * (b + 1),
{
    if c >= 0 {
        let q: i64 = c / 1000;
        proof {
            lemma_fundamental_div_mod_converse(c as int, 1000, q as int, c as int - 1000 * q);
        }
        q
    } else {
        let a: i64 = -c;
        let m: i64 = (a + 999) / 1000;
        let q: i64 = -m;
        proof {
            assert(1000 * m <= a + 999 < 1000 * (m + 1));
            lemma_fundamental_div_mod_converse(c as int, 1000, q as int, c as int - 1000 * q);
        }
        q
    }
}

} // verus!
