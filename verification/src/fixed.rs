//! Small fixed-point arithmetic helpers shared by the simulation.
//!
//! Exec division on signed integers truncates toward zero, while the
//! simulation wants floor semantics (monotone in the numerator), so the
//! helpers here implement floor and ceiling division with exact contracts
//! stated over the mathematical (Euclidean) `/` of specifications.

use vstd::prelude::*;

verus! {

/// Floor division by a positive divisor; agrees with the Euclidean `/`
/// of specification arithmetic.
pub fn div_floor_i64(a: i64, b: i64) -> (r: i64)
    requires
        b > 0,
        a > i64::MIN,
    ensures
        r == a as int / b as int,
{
    if a >= 0 {
        let q: u64 = (a as u64) / (b as u64);
        proof {
            vstd::arithmetic::div_mod::lemma_div_is_ordered(0, a as int, b as int);
            vstd::arithmetic::div_mod::lemma_basic_div_specific_divisor(b as int);
        }
        q as i64
    } else {
        let m: u64 = (-a) as u64;
        let bu: u64 = b as u64;
        let q: u64 = m / bu;
        let rem: u64 = m % bu;
        let qd: i64 = if rem == 0 {
            -(q as i64)
        } else {
            -(q as i64) - 1
        };
        proof {
            vstd::arithmetic::div_mod::lemma_fundamental_div_mod(m as int, b as int);
            assert(m as int == b as int * (m as int / b as int) + (m as int % b as int));
            let rr: int = if rem == 0 { 0int } else { (b - rem) as int };
            assert(a as int == qd as int * b as int + rr) by (nonlinear_arith)
                requires
                    a as int == -(m as int),
                    m as int == b as int * (q as int) + (rem as int),
                    qd as int == if rem == 0 { -(q as int) } else { -(q as int) - 1 },
                    rr == if rem == 0 { 0int } else { (b - rem) as int },
            ;
            vstd::arithmetic::div_mod::lemma_fundamental_div_mod_converse(
                a as int,
                b as int,
                qd as int,
                rr,
            );
        }
        qd
    }
}

/// Ceiling division by a positive divisor.
pub fn div_ceil_i64(a: i64, b: i64) -> (r: i64)
    requires
        b > 0,
        i64::MIN < a,
        a + b - 1 <= i64::MAX,
    ensures
        r == (a + b - 1) as int / b as int,
        b * r >= a,
        b * (r - 1) < a,
{
    let r = div_floor_i64(a + (b - 1), b);
    proof {
        let x: int = (a + b - 1) as int;
        vstd::arithmetic::div_mod::lemma_fundamental_div_mod(x, b as int);
        vstd::arithmetic::div_mod::lemma_mod_bound(x, b as int);
        assert(b as int * (r as int) == x - x % b as int);
        assert(b as int * (r as int - 1) == b as int * (r as int) - b as int) by (nonlinear_arith);
    }
    r
}

/// A fixed-point displacement: `dir * s * dt / divisor` with floor
/// semantics, for a scaled direction component `dir`, a speed `s` and a
/// frame delta `dt`.  The bounds keep the product inside `i64`.
pub fn scaled_delta(dir: i64, s: i64, dt: i64, divisor: i64) -> (r: i64)
    requires
        -1500 <= dir <= 1500,
        -200_000 <= s <= 200_000,
        0 <= dt <= 1000,
        divisor > 0,
    ensures
        r == dir as int * s as int * dt as int / divisor as int,
        -300_000_000_000 <= r <= 300_000_000_000,
{
    proof {
        assert(-300_000_000 <= dir as int * s as int <= 300_000_000) by (nonlinear_arith)
            requires
                -1500 <= dir as int <= 1500,
                -200_000 <= s as int <= 200_000,
        ;
        assert(-300_000_000_000 <= dir as int * s as int * dt as int <= 300_000_000_000)
            by (nonlinear_arith)
            requires
                -300_000_000 <= dir as int * s as int <= 300_000_000,
                0 <= dt as int <= 1000,
        ;
    }
    let p1: i64 = dir * s;
    let p2: i64 = p1 * dt;
    let r = div_floor_i64(p2, divisor);
    proof {
        let bound: int = 300_000_000_000;
        assert(divisor as int * bound >= bound && divisor as int * (-bound) <= -bound)
            by (nonlinear_arith)
            requires
                divisor as int >= 1,
                bound == 300_000_000_000,
        ;
        vstd::arithmetic::div_mod::lemma_div_is_ordered(p2 as int, divisor as int * bound, divisor as int);
        vstd::arithmetic::div_mod::lemma_div_multiples_vanish(bound, divisor as int);
        vstd::arithmetic::div_mod::lemma_div_is_ordered(divisor as int * (-bound), p2 as int, divisor as int);
        vstd::arithmetic::div_mod::lemma_div_multiples_vanish(-bound, divisor as int);
    }
    r
}

/// The integer square root as a mathematical function: the largest
/// `r >= 0` with `r * r <= n`.
pub open spec fn sqrt_floor(n: int) -> int
    decreases n,
{
    if n < 1 {
        0
    } else {
        let p = sqrt_floor(n - 1);
        if (p + 1) * (p + 1) <= n {
            p + 1
        } else {
            p
        }
    }
}

/// [`sqrt_floor`] brackets its argument between consecutive squares.
pub proof fn lemma_sqrt_floor_bracket(n: int)
    requires
        n >= 0,
    ensures
        sqrt_floor(n) >= 0,
        sqrt_floor(n) * sqrt_floor(n) <= n,
        (sqrt_floor(n) + 1) * (sqrt_floor(n) + 1) > n,
    decreases n,
{
    if n >= 1 {
        lemma_sqrt_floor_bracket(n - 1);
        let p = sqrt_floor(n - 1);
        if (p + 1) * (p + 1) <= n {
            assert((p + 2) * (p + 2) > n) by (nonlinear_arith)
                requires
                    (p + 1) * (p + 1) > n - 1,
                    p >= 0,
            ;
        }
    }
}

/// Anything bracketed between consecutive squares is the square root.
pub proof fn lemma_sqrt_floor_unique(n: int, r: int)
    requires
        r >= 0,
        r * r <= n,
        (r + 1) * (r + 1) > n,
    ensures
        r == sqrt_floor(n),
{
    lemma_sqrt_floor_bracket(n);
    let s = sqrt_floor(n);
    assert(r == s) by (nonlinear_arith)
        requires
            r >= 0,
            s >= 0,
            r * r <= n,
            (r + 1) * (r + 1) > n,
            s * s <= n,
            (s + 1) * (s + 1) > n,
    ;
}

/// Integer square root: the largest `r` with `r * r <= n`.
pub fn isqrt_u128(n: u128) -> (r: u128)
    ensures
        r * r <= n,
        (r + 1) * (r + 1) > n,
        r == sqrt_floor(n as int),
{
    let mut lo: u128 = 0;
    let mut hi: u128 = 0x1_0000_0000_0000_0000;
    proof {
        assert(hi as int * hi as int > u128::MAX as int) by (nonlinear_arith)
            requires
                hi == 0x1_0000_0000_0000_0000u128,
        ;
    }
    while lo + 1 < hi
        invariant
            lo < hi,
            hi <= 0x1_0000_0000_0000_0000,
            lo as int * lo as int <= n as int,
            hi as int * hi as int > n as int,
        decreases hi - lo,
    {
        let mid: u128 = lo + (hi - lo) / 2;
        proof {
            assert(mid as int * mid as int <= u128::MAX as int) by (nonlinear_arith)
                requires
                    mid as int <= 0xffff_ffff_ffff_ffffu128 as int,
                    mid as int >= 0,
            ;
        }
        if mid * mid <= n {
            lo = mid;
        } else {
            hi = mid;
        }
    }
    proof {
        assert((lo + 1) as int * (lo + 1) as int >= hi as int * hi as int) by (nonlinear_arith)
            requires
                lo + 1 >= hi,
                hi as int >= 1,
        ;
        lemma_sqrt_floor_unique(n as int, lo as int);
    }
    lo
}

/// The x component of `(dx, dy)` normalized to a unit vector scaled by
/// 1000, with floor toward zero; the zero vector maps to zero.
pub open spec fn norm_x_spec(dx: int, dy: int) -> int {
    if dx == 0 && dy == 0 {
        0
    } else {
        let len = sqrt_floor(dx * dx + dy * dy);
        if dx >= 0 {
            dx * 1000 / len
        } else {
            -((-dx) * 1000 / len)
        }
    }
}

/// The y component of `(dx, dy)` normalized to a unit vector scaled by
/// 1000, with floor toward zero; the zero vector maps to zero.
pub open spec fn norm_y_spec(dx: int, dy: int) -> int {
    if dx == 0 && dy == 0 {
        0
    } else {
        let len = sqrt_floor(dx * dx + dy * dy);
        if dy >= 0 {
            dy * 1000 / len
        } else {
            -((-dy) * 1000 / len)
        }
    }
}

/// Normalizes `(dx, dy)` to a unit vector scaled by 1000, with floor
/// toward zero on the magnitudes.  The zero vector has no direction and
/// maps to the zero vector, which callers treat as "no displacement".
pub fn normalize_milli(dx: i64, dy: i64) -> (r: (i64, i64))
    requires
        dx > i64::MIN,
        dy > i64::MIN,
    ensures
        r.0 == norm_x_spec(dx as int, dy as int),
        r.1 == norm_y_spec(dx as int, dy as int),
        -1000 <= r.0 <= 1000,
        -1000 <= r.1 <= 1000,
        dx == 0 && dy == 0 ==> r == (0i64, 0i64),
        dx == 0 ==> r.0 == 0,
        dy == 0 ==> r.1 == 0,
        dx >= 0 ==> r.0 >= 0,
        dx <= 0 ==> r.0 <= 0,
        dy >= 0 ==> r.1 >= 0,
        dy <= 0 ==> r.1 <= 0,
{
    let ax: u64 = if dx >= 0 {
        dx as u64
    } else {
        (-dx) as u64
    };
    let ay: u64 = if dy >= 0 {
        dy as u64
    } else {
        (-dy) as u64
    };
    proof {
        assert(ax as int * ax as int + ay as int * ay as int <= u128::MAX as int)
            by (nonlinear_arith)
            requires
                0 <= ax as int <= 0x8000_0000_0000_0000,
                0 <= ay as int <= 0x8000_0000_0000_0000,
        ;
    }
    let s: u128 = (ax as u128) * (ax as u128) + (ay as u128) * (ay as u128);
    if s == 0 {
        proof {
            assert(ax as int * ax as int >= 0 && ay as int * ay as int >= 0 && (ax as int
                * ax as int == 0 ==> ax == 0) && (ay as int * ay as int == 0 ==> ay == 0))
                by (nonlinear_arith);
        }
        return (0, 0);
    }
    let len: u128 = isqrt_u128(s);
    proof {
        assert(ax as int * ax as int <= s as int && ay as int * ay as int <= s as int)
            by (nonlinear_arith)
            requires
                s as int == ax as int * ax as int + ay as int * ay as int,
        ;
        assert(len as int >= ax as int && len as int >= ay as int) by (nonlinear_arith)
            requires
                len as int * len as int <= s as int,
                (len as int + 1) * (len as int + 1) > s as int,
                ax as int * ax as int <= s as int,
                ay as int * ay as int <= s as int,
                len as int >= 0,
                ax as int >= 0,
                ay as int >= 0,
        ;
        assert(len >= 1) by (nonlinear_arith)
            requires
                len as int * len as int <= s as int,
                (len as int + 1) * (len as int + 1) > s as int,
                s as int >= 1,
                len as int >= 0,
        ;
    }
    let nx_mag: u128 = (ax as u128) * 1000 / len;
    let ny_mag: u128 = (ay as u128) * 1000 / len;
    proof {
        assert(len as int * 1000 >= ax as int * 1000 && len as int * 1000 >= ay as int * 1000)
            by (nonlinear_arith)
            requires
                len as int >= ax as int,
                len as int >= ay as int,
        ;
        vstd::arithmetic::div_mod::lemma_div_is_ordered(
            ax as int * 1000,
            len as int * 1000,
            len as int,
        );
        vstd::arithmetic::div_mod::lemma_div_is_ordered(
            ay as int * 1000,
            len as int * 1000,
            len as int,
        );
        vstd::arithmetic::div_mod::lemma_div_multiples_vanish(1000, len as int);
        vstd::arithmetic::div_mod::lemma_div_is_ordered(0, ax as int * 1000, len as int);
        vstd::arithmetic::div_mod::lemma_div_is_ordered(0, ay as int * 1000, len as int);
        vstd::arithmetic::div_mod::lemma_basic_div_specific_divisor(len as int);
    }
    let nx: i64 = if dx >= 0 {
        nx_mag as i64
    } else {
        -(nx_mag as i64)
    };
    let ny: i64 = if dy >= 0 {
        ny_mag as i64
    } else {
        -(ny_mag as i64)
    };
    proof {
        assert(ax as int * ax as int + ay as int * ay as int == dx as int * dx as int + dy as int
            * dy as int) by (nonlinear_arith)
            requires
                ax as int == if dx as int >= 0 { dx as int } else { -(dx as int) },
                ay as int == if dy as int >= 0 { dy as int } else { -(dy as int) },
        ;
        assert(len as int == sqrt_floor(dx as int * dx as int + dy as int * dy as int));
    }
    (nx, ny)
}

} // verus!
