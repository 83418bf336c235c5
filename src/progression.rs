//! Experience and levels: `level(E) = floor(sqrt(E / 100)) + 1`.

use vstd::prelude::*;

verus! {

/// Integer square root, `floor(sqrt(n))`.
pub open spec fn isqrt(n: nat) -> nat
    decreases n,
{
    if n == 0 {
        0
    } else {
        let r = isqrt((n - 1) as nat);
        if (r + 1) * (r + 1) <= n {
            r + 1
        } else {
            r
        }
    }
}

/// Level reached with `e` experience points. Negative experience (never
/// produced by rewards) counts as the first level.
pub open spec fn level_of(e: int) -> int {
    if e < 0 {
        1
    } else {
        isqrt((e / 100) as nat) as int + 1
    }
}

/// Experience at which level `l` starts: `100 * (l - 1)^2`.
pub open spec fn level_floor(l: int) -> int {
    100 * (l - 1) * (l - 1)
}

/// `isqrt(n)` is the one `r` with `r^2 <= n < (r + 1)^2`.
pub proof fn lemma_isqrt_bounds(n: nat)
    ensures
        isqrt(n) * isqrt(n) <= n,
        n < (isqrt(n) + 1) * (isqrt(n) + 1),
    decreases n,
{
    if n > 0 {
        lemma_isqrt_bounds((n - 1) as nat);
        let r = isqrt((n - 1) as nat);
        if (r + 1) * (r + 1) <= n {
            assert(isqrt(n) == r + 1);
            assert(n < (r + 2) * (r + 2)) by (nonlinear_arith)
                requires
                    n - 1 < (r + 1) * (r + 1),
                    r >= 0,
            ;
        } else {
            assert(isqrt(n) == r);
            assert(r * r <= n);
        }
    } else {
        assert(isqrt(0) == 0);
        assert(0 * 0 == 0 && 1 * 1 == 1) by (nonlinear_arith);
    }
}

/// Any `r` with `r^2 <= n < (r + 1)^2` is `isqrt(n)`.
pub proof fn lemma_isqrt_unique(n: nat, r: nat)
    requires
        r * r <= n,
        n < (r + 1) * (r + 1),
    ensures
        isqrt(n) == r,
{
    lemma_isqrt_bounds(n);
    let s = isqrt(n);
    if s < r {
        assert((s + 1) * (s + 1) <= r * r) by (nonlinear_arith)
            requires
                s + 1 <= r,
                s >= 0,
        ;
    } else if s > r {
        assert((r + 1) * (r + 1) <= s * s) by (nonlinear_arith)
            requires
                r + 1 <= s,
                r >= 0,
        ;
    }
}

/// `isqrt` is monotone.
pub proof fn lemma_isqrt_monotonic(a: nat, b: nat)
    requires
        a <= b,
    ensures
        isqrt(a) <= isqrt(b),
    decreases b - a,
{
    if a < b {
        lemma_isqrt_monotonic(a, (b - 1) as nat);
    }
}

/// The level of `e` is the `l >= 1` whose span `[100 (l-1)^2, 100 l^2)` holds `e`.
pub proof fn lemma_level_span(e: int)
    requires
        e >= 0,
    ensures
        level_of(e) >= 1,
        level_floor(level_of(e)) <= e < level_floor(level_of(e) + 1),
{
    let q = (e / 100) as nat;
    lemma_isqrt_bounds(q);
    let r: int = isqrt(q) as int;
    assert(100 * (r * r) <= e < 100 * ((r + 1) * (r + 1))) by (nonlinear_arith)
        requires
            r * r <= q,
            q < (r + 1) * (r + 1),
            q == e / 100,
            r >= 0,
            e >= 0,
    ;
    assert(100 * r * r == 100 * (r * r)) by (nonlinear_arith);
    assert(100 * (r + 1) * (r + 1) == 100 * ((r + 1) * (r + 1))) by (nonlinear_arith);
}

/// Levels rise with experience: for `0 <= a <= b`, `level(a) <= level(b)`,
/// and each is `floor(sqrt(E / 100)) + 1`.
pub proof fn lemma_level_monotonic(a: int, b: int)
    requires
        0 <= a <= b,
    ensures
        level_of(a) == isqrt((a / 100) as nat) + 1,
        level_of(b) == isqrt((b / 100) as nat) + 1,
        level_of(a) <= level_of(b),
{
    assert(a / 100 <= b / 100) by (nonlinear_arith)
        requires
            0 <= a <= b,
    ;
    lemma_isqrt_monotonic((a / 100) as nat, (b / 100) as nat);
}

/// Largest `r` with `r * r <= n`, by binary search.
fn isqrt_u64(n: u64) -> (r: u64)
    ensures
        r == isqrt(n as nat),
{
    // 4294967296^2 exceeds u64::MAX, so the root lies below it.
    let mut lo: u64 = 0;
    let mut hi: u64 = 4294967296;
    assert(hi * hi > u64::MAX) by (nonlinear_arith)
        requires
            hi == 4294967296u64,
    ;
    while hi - lo > 1
        invariant
            lo < hi <= 4294967296,
            lo * lo <= n,
            n < hi * hi,
        decreases hi - lo,
    {
        let mid: u64 = lo + (hi - lo) / 2;
        assert(mid * mid <= 4294967295u64 * 4294967295u64) by (nonlinear_arith)
            requires
                mid < 4294967296u64,
        ;
        if mid * mid <= n {
            lo = mid;
        } else {
            hi = mid;
        }
    }
    proof {
        lemma_isqrt_unique(n as nat, lo as nat);
    }
    lo
}

/// Level reached with `experience` points.
pub fn level_for_experience(experience: i64) -> (r: i32)
    ensures
        r == level_of(experience as int),
        r >= 1,
{
    if experience < 0 {
        1
    } else {
        let q: u64 = (experience / 100) as u64;
        let root = isqrt_u64(q);
        proof {
            lemma_isqrt_bounds(q as nat);
            assert(root * root <= q);
            assert(q <= 92233720368547758);
            assert(root < 303700050) by (nonlinear_arith)
                requires
                    root * root <= q,
                    q <= 92233720368547758,
            ;
        }
        (root + 1) as i32
    }
}

} // verus!
