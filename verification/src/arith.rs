use vstd::arithmetic::div_mod::lemma_fundamental_div_mod;
use vstd::prelude::*;

verus! {

// ── Integer square root ─────────────────────────────────────────────

/// The integer square root: the largest `r` with `r * r <= x`.
pub open spec fn isqrt_spec(x: nat) -> nat
    decreases x,
{
    if x == 0 {
        0
    } else {
        let r = isqrt_spec((x - 1) as nat);
        if (r + 1) * (r + 1) <= x {
            r + 1
        } else {
            r
        }
    }
}

/// The defining property of `isqrt_spec`.
pub proof fn lemma_isqrt_bounds(x: nat)
    ensures
        isqrt_spec(x) * isqrt_spec(x) <= x,
        x < (isqrt_spec(x) + 1) * (isqrt_spec(x) + 1),
    decreases x,
{
    if x == 0 {
        assert(isqrt_spec(x) == 0);
        assert(isqrt_spec(x) * isqrt_spec(x) <= x);
        assert((isqrt_spec(x) + 1) * (isqrt_spec(x) + 1) == 1) by (nonlinear_arith)
            requires
                isqrt_spec(x) == 0,
        ;
    } else {
        lemma_isqrt_bounds((x - 1) as nat);
        let r = isqrt_spec((x - 1) as nat);
        if (r + 1) * (r + 1) <= x {
            assert(x <= (r + 1) * (r + 1));
            assert((r + 2) * (r + 2) > (r + 1) * (r + 1)) by (nonlinear_arith)
                requires
                    r >= 0,
            ;
            assert(isqrt_spec(x) == r + 1);
        } else {
            assert(isqrt_spec(x) == r);
        }
    }
}

/// Any `r` with `r * r <= x < (r + 1) * (r + 1)` is the integer square root.
pub proof fn lemma_isqrt_unique(x: nat, r: nat)
    requires
        r * r <= x,
        x < (r + 1) * (r + 1),
    ensures
        r == isqrt_spec(x),
{
    lemma_isqrt_bounds(x);
    let s = isqrt_spec(x);
    if r < s {
        assert((r + 1) * (r + 1) <= s * s) by (nonlinear_arith)
            requires
                r + 1 <= s,
        ;
    }
    if r > s {
        assert((s + 1) * (s + 1) <= r * r) by (nonlinear_arith)
            requires
                s + 1 <= r,
        ;
    }
}

/// The integer square root never decreases.
pub proof fn lemma_isqrt_monotonic(a: nat, b: nat)
    requires
        a <= b,
    ensures
        isqrt_spec(a) <= isqrt_spec(b),
{
    lemma_isqrt_bounds(a);
    lemma_isqrt_bounds(b);
    let ra = isqrt_spec(a);
    let rb = isqrt_spec(b);
    if ra > rb {
        assert((rb + 1) * (rb + 1) <= ra * ra) by (nonlinear_arith)
            requires
                rb + 1 <= ra,
        ;
    }
}

/// Binary search for the integer square root of a 128-bit value.
pub fn isqrt_u128(x: u128) -> (r: u128)
    ensures
        r == isqrt_spec(x as nat),
        r < 0x1_0000_0000_0000_0000,
{
    let mut lo: u128 = 0;
    let mut hi: u128 = 0x1_0000_0000_0000_0000;
    proof {
        assert((x as int) < (hi as int) * (hi as int)) by (nonlinear_arith)
            requires
                x <= u128::MAX,
                hi == 0x1_0000_0000_0000_0000,
        ;
    }
    while lo + 1 < hi
        invariant
            lo < hi,
            hi <= 0x1_0000_0000_0000_0000,
            (lo as int) * (lo as int) <= x as int,
            (x as int) < (hi as int) * (hi as int),
        decreases hi - lo,
    {
        let mid = lo + (hi - lo) / 2;
        proof {
            assert(lo < mid < hi);
            assert((mid as int) * (mid as int) <= (0xffff_ffff_ffff_ffffu64 as int) * (
            0xffff_ffff_ffff_ffffu64 as int)) by (nonlinear_arith)
                requires
                    0 <= (mid as int) <= 0xffff_ffff_ffff_ffffu64 as int,
            ;
        }
        if mid * mid <= x {
            lo = mid;
        } else {
            hi = mid;
        }
    }
    proof {
        lemma_isqrt_unique(x as nat, lo as nat);
    }
    lo
}

// ── Ordering facts about integer division ───────────────────────────

/// Integer division respects the ordering of the exact quotients: if
/// `a / b <= c / d` holds of the rationals (cross-multiplied), it holds of
/// the floored quotients too.
pub proof fn lemma_div_rational_ordered(a: int, b: int, c: int, d: int)
    requires
        0 <= a,
        0 < b,
        0 <= c,
        0 < d,
        a * d <= c * b,
    ensures
        a / b <= c / d,
{
    let q = a / b;
    lemma_fundamental_div_mod(a, b);
    lemma_fundamental_div_mod(c, d);
    let qc = c / d;
    let rc = c % d;
    // q * b <= a, so q * b * d <= a * d <= c * b = (d * qc + rc) * b
    assert(q * b <= a);
    assert(q * (b * d) <= a * d) by (nonlinear_arith)
        requires
            q * b <= a,
            d > 0,
    ;
    assert(c * b == (d * qc + rc) * b);
    if q > qc {
        assert(q * (b * d) >= (qc + 1) * (b * d)) by (nonlinear_arith)
            requires
                q >= qc + 1,
                b > 0,
                d > 0,
        ;
        assert((qc + 1) * (b * d) > (d * qc + rc) * b) by (nonlinear_arith)
            requires
                b > 0,
                d > 0,
                rc < d,
        ;
    }
}

/// A quotient never exceeds its dividend's multiple bound: `x * f / m <= x`
/// whenever `f <= m`.
pub proof fn lemma_mul_div_le(x: int, f: int, m: int)
    requires
        0 <= x,
        0 <= f <= m,
        0 < m,
    ensures
        0 <= x * f / m <= x,
{
    assert(x * f >= 0 && (x * f) * 1 <= x * m) by (nonlinear_arith)
        requires
            x >= 0,
            0 <= f <= m,
    ;
    lemma_div_rational_ordered(x * f, m, x, 1);
    assert(x * f / m >= 0);
}

} // verus!
