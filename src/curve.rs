//! The experience curve: the cumulative experience that a level asks for.
use vstd::prelude::*;

verus! {

/// Floor of the square root of `x`, counted up from zero.
pub open spec fn isqrt(x: nat) -> nat
    decreases x,
{
    if x == 0 {
        0
    } else {
        let r = isqrt((x - 1) as nat);
        if (r + 1) * (r + 1) <= x {
            r + 1
        } else {
            r
        }
    }
}

/// `r` is the floor of the square root of `x`.
pub open spec fn is_floor_sqrt(r: nat, x: nat) -> bool {
    r * r <= x && x < (r + 1) * (r + 1)
}

/// Cumulative experience needed to reach `level`: zero up to level one, then
/// `floor(100 * (level - 1)^1.5)`, which is `floor(sqrt(10000 * (level - 1)^3))`.
pub open spec fn required_exp(level: int) -> nat {
    if level <= 1 {
        0
    } else {
        let n = (level - 1) as nat;
        isqrt(10000 * (n * n * n))
    }
}

proof fn lemma_square_le(a: nat, b: nat)
    requires
        a <= b,
    ensures
        a * a <= b * b,
{
    assert(a * a <= b * b) by (nonlinear_arith)
        requires
            a <= b,
    ;
}

/// `isqrt` is the floor of the square root.
pub proof fn lemma_isqrt(x: nat)
    ensures
        is_floor_sqrt(isqrt(x), x),
    decreases x,
{
    if x > 0 {
        lemma_isqrt((x - 1) as nat);
        let r = isqrt((x - 1) as nat);
        assert((r + 2) * (r + 2) == (r + 1) * (r + 1) + 2 * r + 3) by (nonlinear_arith);
        if (r + 1) * (r + 1) <= x {
            assert(isqrt(x) == r + 1);
            assert(x < (r + 2) * (r + 2)) by (nonlinear_arith)
                requires
                    x - 1 < (r + 1) * (r + 1),
                    (r + 2) * (r + 2) == (r + 1) * (r + 1) + 2 * r + 3,
            ;
            assert(is_floor_sqrt(r + 1, x));
        } else {
            assert(isqrt(x) == r);
            assert(is_floor_sqrt(r, x));
        }
    } else {
        assert(is_floor_sqrt(0, 0)) by (nonlinear_arith);
    }
}

/// The floor of a square root is unique.
pub proof fn lemma_floor_sqrt_unique(a: nat, b: nat, x: nat)
    requires
        is_floor_sqrt(a, x),
        is_floor_sqrt(b, x),
    ensures
        a == b,
{
    if a < b {
        lemma_square_le(a + 1, b);
    } else if b < a {
        lemma_square_le(b + 1, a);
    }
}

/// Each level asks for strictly more experience than the one before it.
pub proof fn lemma_required_exp_step(level: int)
    requires
        level >= 1,
    ensures
        required_exp(level) < required_exp(level + 1),
{
    let n: nat = (level - 1) as nat;
    let x: nat = 10000 * (n * n * n);
    let y: nat = 10000 * ((n + 1) * (n + 1) * (n + 1));
    lemma_isqrt(x);
    lemma_isqrt(y);
    let r = isqrt(x);
    if level == 1 {
        assert(required_exp(level) == 0);
        assert(y == 10000) by (nonlinear_arith)
            requires
                n == 0,
                y == 10000 * ((n + 1) * (n + 1) * (n + 1)),
        ;
        let s = isqrt(y);
        assert(s > 0) by (nonlinear_arith)
            requires
                y == 10000,
                y < (s + 1) * (s + 1),
        ;
    } else {
        // r <= 100 * n * n, so 2 * r + 1 fits in the gap y - x.
        assert(r <= 100 * n * n) by {
            if r > 100 * n * n {
                lemma_square_le(100 * n * n + 1, r);
                assert((100 * n * n + 1) * (100 * n * n + 1) > 10000 * (n * n * n)) by (nonlinear_arith)
                    requires
                        n >= 1,
                ;
            }
        }
        assert(y - x == 10000 * (3 * n * n + 3 * n + 1)) by (nonlinear_arith)
            requires
                x == 10000 * (n * n * n),
                y == 10000 * ((n + 1) * (n + 1) * (n + 1)),
        ;
        assert((r + 1) * (r + 1) == r * r + 2 * r + 1) by (nonlinear_arith);
        assert((r + 1) * (r + 1) <= y) by (nonlinear_arith)
            requires
                r * r <= x,
                r <= 100 * n * n,
                y - x == 10000 * (3 * n * n + 3 * n + 1),
                (r + 1) * (r + 1) == r * r + 2 * r + 1,
        ;
        if isqrt(y) <= r {
            lemma_square_le(isqrt(y) + 1, r + 1);
        }
    }
}

/// The curve never decreases from level one on.
pub proof fn lemma_required_exp_monotone(a: int, b: int)
    requires
        1 <= a <= b,
    ensures
        required_exp(a) <= required_exp(b),
        a < b ==> required_exp(a) < required_exp(b),
    decreases b - a,
{
    if a < b {
        lemma_required_exp_monotone(a, b - 1);
        lemma_required_exp_step(b - 1);
    }
}

/// Up to the hundredth level the curve stays below ten billion.
pub proof fn lemma_required_exp_small(level: int)
    requires
        level <= 100,
    ensures
        required_exp(level) <= 10_000_000_000,
{
    if level > 1 {
        let n: nat = (level - 1) as nat;
        let x: nat = 10000 * (n * n * n);
        assert(n * n * n <= 99 * 99 * 99) by (nonlinear_arith)
            requires
                n <= 99,
        ;
        lemma_isqrt(x);
        let r = isqrt(x);
        assert(r <= x) by (nonlinear_arith)
            requires
                r * r <= x,
        ;
    }
}

/// Floor of the square root of `x`, by bisection.
fn isqrt_exec(x: u128) -> (r: u64)
    requires
        x < 0x1_0000_0000_0000_0000_0000_0000_0000,
    ensures
        r as nat == isqrt(x as nat),
{
    let mut lo: u128 = 0;
    let mut hi: u128 = 0x100_0000_0000_0000;
    assert(x < hi * hi) by (nonlinear_arith)
        requires
            hi == 0x100_0000_0000_0000,
            x < 0x1_0000_0000_0000_0000_0000_0000_0000,
    ;
    while hi - lo > 1
        invariant
            lo < hi <= 0x100_0000_0000_0000,
            lo * lo <= x,
            x < hi * hi,
        decreases hi - lo,
    {
        let mid: u128 = lo + (hi - lo) / 2;
        assert(mid * mid <= 0x100_0000_0000_0000 * 0x100_0000_0000_0000) by (nonlinear_arith)
            requires
                mid <= 0x100_0000_0000_0000,
        ;
        if mid * mid <= x {
            lo = mid;
        } else {
            hi = mid;
        }
    }
    proof {
        assert(hi == lo + 1);
        lemma_isqrt(x as nat);
        lemma_floor_sqrt_unique(lo as nat, isqrt(x as nat), x as nat);
    }
    lo as u64
}

/// Cumulative experience needed to reach `target_level`, exactly.
pub fn required_exp_exact(target_level: u32) -> (r: u64)
    ensures
        r as nat == required_exp(target_level as int),
{
    if target_level <= 1 {
        return 0;
    }
    let n: u128 = (target_level - 1) as u128;
    assert(n * n <= 0xffff_ffff * 0xffff_ffff) by (nonlinear_arith)
        requires
            n <= 0xffff_ffff,
    ;
    assert(n * n * n <= 0xffff_ffff * 0xffff_ffff * 0xffff_ffff) by (nonlinear_arith)
        requires
            n <= 0xffff_ffff,
    ;
    let x: u128 = 10000 * (n * n * n);
    isqrt_exec(x)
}

} // verus!
