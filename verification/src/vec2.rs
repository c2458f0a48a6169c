use vstd::prelude::*;

verus! {

/// Milliunits per world distance unit: every coordinate and velocity in the
/// simulation is a fixed-point integer counting thousandths of a unit.
pub const MILLI: i64 = 1000;

/// A 2D point or vector in fixed-point world coordinates (milliunits).
#[derive(Clone, Copy, Debug, PartialEq, Eq)]
pub struct Vec2Milli {
    pub x: i64,
    pub y: i64,
}

/// Squared magnitude of a vector, in squared milliunits.
pub open spec fn sq_mag(v: Vec2Milli) -> int {
    v.x * v.x + v.y * v.y
}

/// Signed division that rounds toward zero, as executable integer division
/// does; the spec operator `/` on `int` rounds toward negative infinity.
pub open spec fn sdiv(a: int, b: int) -> int {
    if a >= 0 {
        a / b
    } else {
        -((-a) / b)
    }
}

/// `r` is the integer square root of `n`.
pub open spec fn is_isqrt(n: nat, r: nat) -> bool {
    r * r <= n < (r + 1) * (r + 1)
}

/// The integer square root of `n`: the largest `r` with `r * r <= n`.
pub open spec fn spec_isqrt(n: nat) -> nat {
    choose|r: nat| is_isqrt(n, r)
}

pub proof fn lemma_isqrt_unique(n: nat, r1: nat, r2: nat)
    requires
        is_isqrt(n, r1),
        is_isqrt(n, r2),
    ensures
        r1 == r2,
{
    if r1 < r2 {
        assert((r1 + 1) * (r1 + 1) <= r2 * r2) by (nonlinear_arith)
            requires
                r1 + 1 <= r2,
        ;
    }
    if r2 < r1 {
        assert((r2 + 1) * (r2 + 1) <= r1 * r1) by (nonlinear_arith)
            requires
                r2 + 1 <= r1,
        ;
    }
}

/// Every natural number has an integer square root.
pub proof fn lemma_isqrt_exists(n: nat)
    ensures
        is_isqrt(n, spec_isqrt(n)),
    decreases n,
{
    if n == 0 {
        assert(is_isqrt(0, 0)) by {
            assert(((0 + 1) as nat) * ((0 + 1) as nat) == 1) by (nonlinear_arith);
        }
    } else {
        lemma_isqrt_exists((n - 1) as nat);
        let r = spec_isqrt((n - 1) as nat);
        if (r + 1) * (r + 1) <= n {
            assert(n == (r + 1) * (r + 1));
            assert(n < (r + 2) * (r + 2)) by (nonlinear_arith)
                requires
                    n == (r + 1) * (r + 1),
            ;
            assert(is_isqrt(n, r + 1));
        } else {
            assert(is_isqrt(n, r));
        }
    }
    assert(exists|r: nat| is_isqrt(n, r));
}

/// The integer square root never falls below a component: if `a * a <= n`
/// then `a <= spec_isqrt(n)`.
pub proof fn lemma_isqrt_lower_bound(n: nat, a: nat)
    requires
        a * a <= n,
    ensures
        a <= spec_isqrt(n),
{
    lemma_isqrt_exists(n);
    let r = spec_isqrt(n);
    if r < a {
        assert((r + 1) * (r + 1) <= a * a) by (nonlinear_arith)
            requires
                r + 1 <= a,
        ;
    }
}

/// Component bound under which fixed-point vector arithmetic cannot
/// overflow: three quintillion milliunits.
pub const COMPONENT_LIMIT: i64 = 3_000_000_000_000_000_000;

/// Squared magnitude in executable code; within the component bound the
/// 128-bit result cannot overflow.
pub fn squared_magnitude(v: &Vec2Milli) -> (r: i128)
    requires
        -COMPONENT_LIMIT <= v.x <= COMPONENT_LIMIT,
        -COMPONENT_LIMIT <= v.y <= COMPONENT_LIMIT,
    ensures
        r as int == sq_mag(*v),
        r >= 0,
{
    proof {
        assert((v.x as int) * (v.x as int) <= 3_000_000_000_000_000_000
            * 3_000_000_000_000_000_000 && (v.x as int) * (v.x as int) >= 0) by (nonlinear_arith)
            requires
                -3_000_000_000_000_000_000 <= v.x as int <= 3_000_000_000_000_000_000,
        ;
        assert((v.y as int) * (v.y as int) <= 3_000_000_000_000_000_000
            * 3_000_000_000_000_000_000 && (v.y as int) * (v.y as int) >= 0) by (nonlinear_arith)
            requires
                -3_000_000_000_000_000_000 <= v.y as int <= 3_000_000_000_000_000_000,
        ;
    }
    (v.x as i128) * (v.x as i128) + (v.y as i128) * (v.y as i128)
}

/// Dividing the square of `a` by any divisor at least `a` comes back down to
/// at most `a`.
pub proof fn lemma_square_div_le(a: int, m: int)
    requires
        0 <= a <= m,
        m > 0,
    ensures
        0 <= a * a / m <= a,
{
    let num = a * a;
    assert(num >= 0) by (nonlinear_arith)
        requires
            a >= 0,
            num == a * a,
    ;
    vstd::arithmetic::div_mod::lemma_fundamental_div_mod(num, m);
    vstd::arithmetic::div_mod::lemma_mod_bound(num, m);
    let q = num / m;
    if q < 0 {
        assert(m * q <= -m) by (nonlinear_arith)
            requires
                m > 0,
                q <= -1,
        ;
    }
    if q > a {
        assert(m * q >= m * (a + 1)) by (nonlinear_arith)
            requires
                m > 0,
                q >= a + 1,
        ;
        assert(m * (a + 1) > a * a) by (nonlinear_arith)
            requires
                m >= a,
                a >= 0,
                m > 0,
        ;
    }
}

/// Integer square root by binary search.
pub fn isqrt(n: u128) -> (r: u128)
    ensures
        r as nat == spec_isqrt(n as nat),
        is_isqrt(n as nat, r as nat),
{
    let mut lo: u128 = 0;
    let mut hi: u128 = 0x1_0000_0000_0000_0000;
    proof {
        assert((0x1_0000_0000_0000_0000 as nat) * (0x1_0000_0000_0000_0000 as nat)
            > u128::MAX as nat) by (nonlinear_arith);
    }
    while lo + 1 < hi
        invariant
            (lo as nat) * (lo as nat) <= n as nat,
            (n as nat) < (hi as nat) * (hi as nat),
            lo < hi <= 0x1_0000_0000_0000_0000,
        decreases hi - lo,
    {
        let mid: u128 = lo + (hi - lo) / 2;
        proof {
            assert(mid * mid <= 0xffff_ffff_ffff_ffffu128 * 0xffff_ffff_ffff_ffffu128)
                by (nonlinear_arith)
                requires
                    mid <= 0xffff_ffff_ffff_ffffu128,
            ;
        }
        if mid * mid <= n {
            lo = mid;
        } else {
            hi = mid;
        }
    }
    proof {
        assert(is_isqrt(n as nat, lo as nat));
        assert(exists|r: nat| is_isqrt(n as nat, r));
        lemma_isqrt_unique(n as nat, lo as nat, spec_isqrt(n as nat));
    }
    lo
}

} // verus!
