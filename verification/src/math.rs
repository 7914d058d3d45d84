//! Checked fixed-point arithmetic: `a * b / denominator` over full-width
//! 128-bit operands with an explicit rounding direction, using a 256-bit
//! intermediate product so that no precision is lost before the division.

use vstd::arithmetic::div_mod::*;
use vstd::arithmetic::mul::*;
use vstd::arithmetic::power2::*;
use vstd::prelude::*;

verus! {

/// Direction in which an inexact quotient is rounded.
#[derive(Clone, Copy, Debug, PartialEq, Eq)]
pub enum Rounding {
    /// Toward positive infinity.
    Up,
    /// Toward zero.
    Down,
}

/// 2^128, the weight of the high limb of a 256-bit value.
pub open spec fn pow2_128() -> int {
    (0x10000000000000000 as int) * (0x10000000000000000 as int)
}

/// `n / d` rounded toward zero (for `n >= 0`, `d > 0`).
pub open spec fn floor_div(n: int, d: int) -> int {
    n / d
}

/// `n / d` rounded toward positive infinity (for `n >= 0`, `d > 0`).
pub open spec fn ceil_div(n: int, d: int) -> int {
    (n + d - 1) / d
}

/// `n / d` rounded in the given direction.
pub open spec fn rounded_div(n: int, d: int, rounding: Rounding) -> int {
    match rounding {
        Rounding::Up => ceil_div(n, d),
        Rounding::Down => floor_div(n, d),
    }
}

/// The exact value `mul_div` returns whenever it fits in its result type.
pub open spec fn mul_div_spec(a: int, b: int, d: int, rounding: Rounding) -> int {
    rounded_div(a * b, d, rounding)
}

/// The two roundings of `n / d` differ by at most one: they agree exactly
/// when `d` divides `n`, and otherwise the upward one is the floor plus one.
pub proof fn lemma_ceil_div_bounds(n: int, d: int)
    requires
        0 <= n,
        0 < d,
    ensures
        n <= ceil_div(n, d) * d < n + d,
        0 <= floor_div(n, d) <= ceil_div(n, d),
        n % d == 0 ==> ceil_div(n, d) == n / d,
        n % d != 0 ==> ceil_div(n, d) == n / d + 1,
{
    broadcast use lemma_mul_is_commutative;

    let q = n / d;
    let r = n % d;
    lemma_fundamental_div_mod(n, d);
    lemma_mod_division_less_than_divisor(n, d);
    lemma_div_pos_is_pos(n, d);
    if r == 0 {
        assert(n + d - 1 == q * d + (d - 1));
        lemma_fundamental_div_mod_converse(n + d - 1, d, q, d - 1);
    } else {
        assert((q + 1) * d == q * d + d) by {
            lemma_mul_is_distributive_add_other_way(d, q, 1);
        }
        assert(n + d - 1 == (q + 1) * d + (r - 1));
        lemma_fundamental_div_mod_converse(n + d - 1, d, q + 1, r - 1);
    }
}

/// There is only one quotient `q` with `n <= q * d < n + d`, namely the
/// upward rounding of `n / d`.
pub proof fn lemma_ceil_div_unique(n: int, d: int, q: int)
    requires
        0 <= n,
        0 < d,
        n <= q * d,
        q * d < n + d,
    ensures
        q == ceil_div(n, d),
{
    let c = ceil_div(n, d);
    lemma_ceil_div_bounds(n, d);
    if c < q {
        assert((c + 1) * d == c * d + d) by {
            lemma_mul_is_distributive_add_other_way(d, c, 1);
        }
        lemma_mul_inequality(c + 1, q, d);
        assert(false);
    }
    if q < c {
        assert((q + 1) * d == q * d + d) by {
            lemma_mul_is_distributive_add_other_way(d, q, 1);
        }
        lemma_mul_inequality(q + 1, c, d);
        assert(false);
    }
}

/// Any `q` whose multiple `q * d` reaches `n` is at least the upward
/// rounding of `n / d`.
pub proof fn lemma_ceil_div_least(n: int, d: int, q: int)
    requires
        0 <= n,
        0 < d,
        n <= q * d,
    ensures
        ceil_div(n, d) <= q,
{
    let c = ceil_div(n, d);
    lemma_ceil_div_bounds(n, d);
    if q < c {
        assert((q + 1) * d == q * d + d) by {
            lemma_mul_is_distributive_add_other_way(d, q, 1);
        }
        lemma_mul_inequality(q + 1, c, d);
        assert(false);
    }
}

/// Upward rounding is monotone in the numerator.
pub proof fn lemma_ceil_div_monotone(n1: int, n2: int, d: int)
    requires
        0 <= n1 <= n2,
        0 < d,
    ensures
        ceil_div(n1, d) <= ceil_div(n2, d),
{
    lemma_ceil_div_bounds(n1, d);
    lemma_ceil_div_bounds(n2, d);
    lemma_ceil_div_least(n1, d, ceil_div(n2, d));
}

/// Dividing upward by `c` and then upward by `d` is dividing upward by
/// `c * d` — the upward counterpart of `lemma_div_denominator`.
pub proof fn lemma_ceil_div_compose(n: int, c: int, d: int)
    requires
        0 <= n,
        0 < c,
        0 < d,
    ensures
        0 < c * d,
        ceil_div(ceil_div(n, c), d) == ceil_div(n, c * d),
{
    lemma_mul_strictly_positive(c, d);
    let m = ceil_div(n, c);
    let p = ceil_div(m, d);
    lemma_ceil_div_bounds(n, c);
    lemma_ceil_div_bounds(m, d);
    // n <= m * c <= (p * d) * c == p * (c * d)
    lemma_mul_inequality(m, p * d, c);
    assert((p * d) * c == p * (c * d)) by {
        lemma_mul_is_associative(p, d, c);
        lemma_mul_is_commutative(d, c);
    }
    // p * d < m + d gives p * (c * d) <= (m + d - 1) * c < (n + c) + (d - 1) * c
    assert(p * (c * d) < n + c * d) by {
        lemma_mul_inequality(p * d, m + d - 1, c);
        assert((m + d - 1) * c == m * c + (d - 1) * c) by {
            lemma_mul_is_distributive_add_other_way(c, m, d - 1);
        }
        assert((d - 1) * c == d * c - c) by {
            lemma_mul_is_distributive_sub_other_way(c, d, 1);
        }
        assert((p * d) * c == p * (c * d)) by {
            lemma_mul_is_associative(p, d, c);
            lemma_mul_is_commutative(d, c);
        }
        lemma_mul_is_commutative(d, c);
    }
    lemma_ceil_div_unique(n, c * d, p);
}

/// Scaling numerator and denominator by the same positive factor leaves the
/// upward rounding unchanged.
pub proof fn lemma_ceil_div_scale(n: int, d: int, s: int)
    requires
        0 <= n,
        0 < d,
        0 < s,
    ensures
        0 < d * s,
        ceil_div(n * s, d * s) == ceil_div(n, d),
{
    lemma_mul_strictly_positive(d, s);
    let q = ceil_div(n, d);
    lemma_ceil_div_bounds(n, d);
    lemma_mul_nonnegative(n, s);
    // n <= q * d  gives  n * s <= (q * d) * s == q * (d * s)
    lemma_mul_inequality(n, q * d, s);
    assert((q * d) * s == q * (d * s)) by {
        lemma_mul_is_associative(q, d, s);
    }
    // q * d < n + d  gives  q * (d * s) <= (n + d - 1) * s < n * s + d * s
    lemma_mul_inequality(q * d, n + d - 1, s);
    assert((n + d - 1) * s == n * s + (d - 1) * s) by {
        lemma_mul_is_distributive_add_other_way(s, n, d - 1);
    }
    assert((d - 1) * s == d * s - s) by {
        lemma_mul_is_distributive_sub_other_way(s, d, 1);
    }
    lemma_ceil_div_unique(n * s, d * s, q);
}

/// `n / d` in the given direction, on machine words.
pub fn div_round(n: u128, d: u128, rounding: Rounding) -> (q: u128)
    requires
        d > 0,
    ensures
        q as int == rounded_div(n as int, d as int, rounding),
{
    let q0 = n / d;
    match rounding {
        Rounding::Down => q0,
        Rounding::Up => {
            let r = n % d;
            proof {
                lemma_ceil_div_bounds(n as int, d as int);
            }
            if r == 0 {
                q0
            } else {
                proof {
                    // q0 <= d * q0 == n - r <= u128::MAX - 1, so q0 + 1 fits
                    lemma_fundamental_div_mod(n as int, d as int);
                    assert(q0 as int <= (d as int) * (q0 as int)) by (nonlinear_arith)
                        requires
                            1 <= d as int,
                            0 <= q0 as int,
                    ;
                }
                q0 + 1
            }
        },
    }
}

/// Full 128x128 -> 256-bit product, returned as (high, low) limbs.
pub fn mul_wide(a: u128, b: u128) -> (r: (u128, u128))
    ensures
        r.0 as int * pow2_128() + r.1 as int == a as int * b as int,
        r.0 < 0xffffffffffffffffffffffffffffffff,
{
    let base: u128 = 0x10000000000000000;
    let a_hi = a / base;
    let a_lo = a % base;
    let b_hi = b / base;
    let b_lo = b % base;
    proof {
        assert((a as int) < 0x10000000000000000 * 0x10000000000000000);
        lemma_multiply_divide_lt(a as int, 0x10000000000000000, 0x10000000000000000);
        lemma_multiply_divide_lt(b as int, 0x10000000000000000, 0x10000000000000000);
        lemma_mul_upper_bound(
            a_hi as int,
            0xffffffffffffffff,
            b_hi as int,
            0xffffffffffffffff,
        );
        lemma_mul_upper_bound(
            a_hi as int,
            0xffffffffffffffff,
            b_lo as int,
            0xffffffffffffffff,
        );
        lemma_mul_upper_bound(
            a_lo as int,
            0xffffffffffffffff,
            b_hi as int,
            0xffffffffffffffff,
        );
        lemma_mul_upper_bound(
            a_lo as int,
            0xffffffffffffffff,
            b_lo as int,
            0xffffffffffffffff,
        );
    }
    let p0 = a_lo * b_lo;
    let p1 = a_lo * b_hi;
    let p2 = a_hi * b_lo;
    let p3 = a_hi * b_hi;
    let p0_hi = p0 / base;
    let p0_lo = p0 % base;
    let p1_hi = p1 / base;
    let p1_lo = p1 % base;
    let p2_hi = p2 / base;
    let p2_lo = p2 % base;
    proof {
        lemma_multiply_divide_lt(p0 as int, 0x10000000000000000, 0x10000000000000000);
        lemma_multiply_divide_lt(p1 as int, 0x10000000000000000, 0x10000000000000000);
        lemma_multiply_divide_lt(p2 as int, 0x10000000000000000, 0x10000000000000000);
    }
    let mid = p1_lo + p2_lo + p0_hi;
    let mid_hi = mid / base;
    let mid_lo = mid % base;
    let lo = mid_lo * base + p0_lo;
    let hi = p3 + p1_hi + p2_hi + mid_hi;
    proof {
        let bb: int = 0x10000000000000000;
        lemma_fundamental_div_mod(a as int, bb);
        lemma_fundamental_div_mod(b as int, bb);
        lemma_fundamental_div_mod(p0 as int, bb);
        lemma_fundamental_div_mod(p1 as int, bb);
        lemma_fundamental_div_mod(p2 as int, bb);
        lemma_fundamental_div_mod(mid as int, bb);
        assert(a as int * b as int == p3 as int * (bb * bb) + p1 as int * bb + p2 as int * bb
            + p0 as int) by (nonlinear_arith)
            requires
                a as int == bb * (a_hi as int) + a_lo as int,
                b as int == bb * (b_hi as int) + b_lo as int,
                p0 as int == a_lo as int * b_lo as int,
                p1 as int == a_lo as int * b_hi as int,
                p2 as int == a_hi as int * b_lo as int,
                p3 as int == a_hi as int * b_hi as int,
        ;
        assert(hi as int * (bb * bb) + lo as int == p3 as int * (bb * bb) + p1 as int * bb
            + p2 as int * bb + p0 as int) by (nonlinear_arith)
            requires
                hi as int == p3 as int + p1_hi as int + p2_hi as int + mid_hi as int,
                lo as int == mid_lo as int * bb + p0_lo as int,
                mid as int == p1_lo as int + p2_lo as int + p0_hi as int,
                mid as int == bb * (mid_hi as int) + mid_lo as int,
                p0 as int == bb * (p0_hi as int) + p0_lo as int,
                p1 as int == bb * (p1_hi as int) + p1_lo as int,
                p2 as int == bb * (p2_hi as int) + p2_lo as int,
        ;
        assert(bb * bb == pow2_128());
        // hi cannot be the largest u128: its weighted value is below (2^128 - 1)^2
        assert(hi as int * pow2_128() <= a as int * b as int);
        lemma_mul_upper_bound(
            a as int,
            0xffffffffffffffffffffffffffffffff,
            b as int,
            0xffffffffffffffffffffffffffffffff,
        );
        assert((hi as int) < 0xffffffffffffffffffffffffffffffff) by (nonlinear_arith)
            requires
                hi as int * pow2_128() <= 0xffffffffffffffffffffffffffffffff
                    * 0xffffffffffffffffffffffffffffffff,
                pow2_128() == (0x10000000000000000 as int) * (0x10000000000000000 as int),
        ;
    }
    (hi, lo)
}

/// Quotient and remainder of the 256-bit value `hi * 2^128 + lo` by `d`,
/// by binary long division. The precondition `hi < d` is exactly what makes
/// the quotient fit in 128 bits.
pub fn div_rem_wide(hi: u128, lo: u128, d: u128) -> (qr: (u128, u128))
    requires
        0 < d,
        hi < d,
    ensures
        qr.0 as int * d as int + qr.1 as int == hi as int * pow2_128() + lo as int,
        qr.1 < d,
{
    let mut q: u128 = 0;
    let mut r: u128 = hi;
    let mut cur: u128 = lo;
    let mut i: usize = 0;
    proof {
        lemma2_to64();
        lemma_pow2_adds(64, 64);
        lemma_pow2_adds(64, 63);
        lemma2_to64_rest();
        lemma_small_mod(lo as nat, pow2(128));
        lemma_basic_div(lo as int, pow2(128) as int);
    }
    while i < 128
        invariant
            0 < d,
            hi < d,
            i <= 128,
            r < d,
            q as int * d as int + r as int == hi as int * pow2(i as nat) + (lo as int) / (pow2(
                (128 - i) as nat,
            ) as int),
            cur as int == ((lo as int) % (pow2((128 - i) as nat) as int)) * pow2(i as nat),
            (q as int) < pow2(i as nat),
        decreases 128 - i,
    {
        proof {
            lemma2_to64();
            lemma2_to64_rest();
            lemma_pow2_adds(64, 63);
            lemma_pow2_adds((128 - i - 1) as nat, i as nat);
            lemma_pow2_unfold((128 - i) as nat);
            lemma_pow2_unfold((i + 1) as nat);
            lemma_pow2_pos((128 - i - 1) as nat);
            lemma_pow2_pos((128 - i) as nat);
            lemma_pow2_pos(i as nat);
            if i < 127 {
                lemma_pow2_strictly_increases(i as nat, 127);
            }
        }
        let ghost gi = i as nat;
        let ghost gr = (128 - i) as nat;
        let ghost p_i = pow2(gi) as int;
        let ghost p_r = pow2(gr) as int;
        let ghost p_r1 = pow2((gr - 1) as nat) as int;
        let ghost m = (lo as int) % p_r;
        let ghost b = ((lo as int) / p_r1) % 2;
        let ghost m1 = (lo as int) % p_r1;
        proof {
            // Split the unprocessed bits of lo: m == p_r1 * b + m1.
            lemma_breakdown(lo as int, p_r1, 2);
            lemma_mod_division_less_than_divisor(lo as int, p_r1);
            lemma_mod_division_less_than_divisor(lo as int, p_r);
            lemma_mod_division_less_than_divisor((lo as int) / p_r1, 2);
            lemma_div_pos_is_pos(lo as int, p_r1);
            lemma_div_pos_is_pos((lo as int) / p_r1, 2);
            // cur == b * 2^127 + m1 * 2^i, with m1 * 2^i < 2^127
            assert(cur as int == b * (p_r1 * p_i) + m1 * p_i) by (nonlinear_arith)
                requires
                    cur as int == m * p_i,
                    m == p_r1 * b + m1,
            ;
            lemma_mul_strict_inequality(m1, p_r1, p_i);
            lemma_mul_nonnegative(m1, p_i);
            lemma_mul_nonnegative(b, p_r1 * p_i);
            assert(p_r1 * p_i == pow2(127) as int);
            assert(pow2(127) == 0x80000000000000000000000000000000);
            lemma_fundamental_div_mod_converse(
                cur as int,
                0x80000000000000000000000000000000,
                b,
                m1 * p_i,
            );
        }
        let bit = cur / 0x80000000000000000000000000000000u128;
        let cur_rest = cur % 0x80000000000000000000000000000000u128;
        proof {
            assert(bit as int == b);
            assert(cur_rest as int == m1 * p_i);
            assert(m1 * (2 * p_i) == (m1 * p_i) * 2) by (nonlinear_arith);
            // The processed prefix of lo gains the bit b:
            // lo / 2^(gr-1) == 2 * (lo / 2^gr) + b
            lemma_div_denominator(lo as int, p_r1, 2);
            lemma_fundamental_div_mod((lo as int) / p_r1, 2);
        }
        let new_cur = cur_rest * 2;
        let next_q: u128;
        let next_r: u128;
        if r + bit >= d - r {
            next_r = (r + bit) - (d - r);
            next_q = q * 2 + 1;
            proof {
                assert(next_q as int * d as int + next_r as int == 2 * (q as int * d as int
                    + r as int) + b) by (nonlinear_arith)
                    requires
                        next_q as int == 2 * (q as int) + 1,
                        next_r as int == 2 * (r as int) + b - d as int,
                        b == bit as int,
                ;
            }
        } else {
            next_r = r + r + bit;
            next_q = q * 2;
            proof {
                assert(next_q as int * d as int + next_r as int == 2 * (q as int * d as int
                    + r as int) + b) by (nonlinear_arith)
                    requires
                        next_q as int == 2 * (q as int),
                        next_r as int == 2 * (r as int) + b,
                        b == bit as int,
                ;
            }
        }
        proof {
            assert(next_q as int * d as int + next_r as int == hi as int * pow2((i + 1) as nat)
                + (lo as int) / pow2((128 - i - 1) as nat) as int) by (nonlinear_arith)
                requires
                    next_q as int * d as int + next_r as int == 2 * (q as int * d as int
                        + r as int) + b,
                    q as int * d as int + r as int == hi as int * p_i + (lo as int) / p_r,
                    (lo as int) / p_r1 == 2 * ((lo as int) / p_r) + b,
                    pow2((i + 1) as nat) as int == 2 * p_i,
                    p_r1 == pow2((128 - i - 1) as nat) as int,
            ;
            assert(new_cur as int == ((lo as int) % pow2((128 - i - 1) as nat) as int) * pow2(
                (i + 1) as nat,
            ) as int) by (nonlinear_arith)
                requires
                    new_cur as int == (m1 * p_i) * 2,
                    m1 == (lo as int) % p_r1,
                    p_r1 == pow2((128 - i - 1) as nat) as int,
                    pow2((i + 1) as nat) as int == 2 * p_i,
            ;
        }
        q = next_q;
        r = next_r;
        cur = new_cur;
        i = i + 1;
    }
    proof {
        lemma2_to64();
        lemma_pow2_adds(64, 64);
        assert(pow2(128) as int == pow2_128());
        assert((lo as int) / (pow2(0) as int) == lo as int);
    }
    (q, r)
}

/// `a * b / denominator` with 256-bit intermediate precision, rounding toward
/// positive infinity (`Up`) or toward zero (`Down`); fails with `Overflow`
/// when the exact rounded result exceeds `u128::MAX` and with
/// `DivisionByZero` when the denominator is zero.
pub fn mul_div(a: u128, b: u128, denominator: u128, rounding: Rounding) -> (result: Result<
    u128,
    crate::errors::ArithmeticError,
>)
    ensures
        denominator == 0 ==> result == Err::<u128, crate::errors::ArithmeticError>(
            crate::errors::ArithmeticError::DivisionByZero,
        ),
        denominator != 0 ==> {
            let v = mul_div_spec(a as int, b as int, denominator as int, rounding);
            if v <= u128::MAX {
                result == Ok::<u128, crate::errors::ArithmeticError>(v as u128)
            } else {
                result == Err::<u128, crate::errors::ArithmeticError>(
                    crate::errors::ArithmeticError::Overflow,
                )
            }
        },
{
    if denominator == 0 {
        return Err(crate::errors::ArithmeticError::DivisionByZero);
    }
    let (hi, lo) = mul_wide(a, b);
    proof {
        lemma_mul_nonnegative(a as int, b as int);
        lemma_ceil_div_bounds(a as int * b as int, denominator as int);
    }
    if hi >= denominator {
        proof {
            let n = a as int * b as int;
            let d = denominator as int;
            lemma_mul_inequality(d, hi as int, pow2_128());
            lemma_div_is_ordered(d * pow2_128(), n, d);
            lemma_div_multiples_vanish(pow2_128(), d);
        }
        return Err(crate::errors::ArithmeticError::Overflow);
    }
    let (q, r) = div_rem_wide(hi, lo, denominator);
    proof {
        lemma_fundamental_div_mod_converse(
            a as int * b as int,
            denominator as int,
            q as int,
            r as int,
        );
    }
    match rounding {
        Rounding::Down => Ok(q),
        Rounding::Up => {
            if r == 0 {
                Ok(q)
            } else if q == u128::MAX {
                Err(crate::errors::ArithmeticError::Overflow)
            } else {
                Ok(q + 1)
            }
        },
    }
}

/// `a * b / 2^128` with the given rounding; never overflows, because the
/// product of two 128-bit values is below `(2^128 - 1) * 2^128`.
pub fn mul_shr_128(a: u128, b: u128, rounding: Rounding) -> (r: u128)
    ensures
        r as int == rounded_div(a as int * b as int, pow2_128(), rounding),
{
    let (hi, lo) = mul_wide(a, b);
    proof {
        lemma_mul_nonnegative(a as int, b as int);
        lemma_fundamental_div_mod_converse(a as int * b as int, pow2_128(), hi as int, lo as int);
        lemma_ceil_div_bounds(a as int * b as int, pow2_128());
    }
    match rounding {
        Rounding::Down => hi,
        Rounding::Up => {
            if lo == 0 {
                hi
            } else {
                hi + 1
            }
        },
    }
}

} // verus!
