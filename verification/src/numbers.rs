//! Rounding as binary floating-point numbers do it, on integers.
use vstd::arithmetic::div_mod::lemma_fundamental_div_mod;
use vstd::arithmetic::power2::{lemma2_to64, lemma_pow2_adds, lemma_pow2_strictly_increases, lemma_pow2_unfold, pow2};
use vstd::prelude::*;
use crate::text::{decimal, decimal_text, glue3, padded, padded_text};

verus! {

/// `n / d` rounded to the nearest integer, halves to the even one.
pub open spec fn round_even(n: nat, d: nat) -> nat {
    let q = n / d;
    let r = n % d;
    if 2 * r < d || (2 * r == d && q % 2 == 0) {
        q
    } else {
        q + 1
    }
}

/// The spacing of the numbers below and above `n` that have fewer than `limit`
/// significand values, a power of two.
pub open spec fn float_unit(n: nat, limit: nat) -> nat
    decreases n,
{
    if n < limit || n == 0 {
        1
    } else {
        2 * float_unit(n / 2, limit)
    }
}

/// The number nearest to `n` whose significand is below `limit`, halves to the
/// even significand.
pub open spec fn nearest_float(n: nat, limit: nat) -> nat {
    round_even(n, float_unit(n, limit)) * float_unit(n, limit)
}

/// Significands of single precision are below this.
pub const SINGLE: u64 = 0x100_0000;

/// Significands of double precision are below this.
pub const DOUBLE: u64 = 0x20_0000_0000_0000;

proof fn lemma_unit_range(n: nat, limit: nat)
    requires
        limit > 1,
    ensures
        1 <= float_unit(n, limit),
        n > 0 ==> float_unit(n, limit) <= n,
    decreases n,
{
    if n >= limit {
        lemma_unit_range(n / 2, limit);
    }
}

fn unit_of(n: u64, limit: u64) -> (r: u64)
    requires
        limit > 1,
    ensures
        r == float_unit(n as nat, limit as nat),
        1 <= r,
        n >= limit ==> r <= n,
    decreases n,
{
    if n < limit {
        1
    } else {
        let half: u64 = unit_of(n / 2, limit);
        proof {
            lemma_unit_range((n / 2) as nat, limit as nat);
            if n / 2 < limit {
                assert(half == 1);
            }
        }
        2 * half
    }
}

pub fn divide_round_even(n: u128, d: u128) -> (r: u128)
    requires
        0 < d < 0x1_0000_0000_0000_0000_0000,
        n < 0x1_0000_0000_0000_0000_0000_0000,
    ensures
        r == round_even(n as nat, d as nat),
        r <= n + 1,
{
    let q: u128 = n / d;
    let rem: u128 = n % d;
    assert(q <= n) by (nonlinear_arith)
        requires
            q == n / d,
            d > 0,
    ;
    if 2 * rem < d || (2 * rem == d && q % 2 == 0) {
        q
    } else {
        q + 1
    }
}

/// The number nearest to `n` with a significand below `limit`.
pub fn round_to_float(n: u64, limit: u64) -> (r: u128)
    requires
        limit > 1,
    ensures
        r == nearest_float(n as nat, limit as nat),
        n < limit ==> r == n,
{
    if n < limit {
        proof {
            let x = n as nat;
            assert(x / 1 == x && x % 1 == 0);
            assert(float_unit(x, limit as nat) == 1);
            assert(round_even(x, 1) == x);
            assert(x * 1 == x) by (nonlinear_arith);
        }
        return n as u128;
    }
    let unit: u64 = unit_of(n, limit);
    let q: u128 = divide_round_even(n as u128, unit as u128);
    proof {
        assert(q <= n + 1);
        assert(q * unit <= 0x2_0000_0000_0000_0000 * 0x1_0000_0000_0000_0000) by (nonlinear_arith)
            requires
                q <= n + 1,
                n <= 0xffff_ffff_ffff_ffff,
                unit <= 0xffff_ffff_ffff_ffff,
        ;
        assert(q * unit <= n + unit) by (nonlinear_arith)
            requires
                q == round_even(n as nat, unit as nat),
                unit > 0,
        ;
    }
    q * (unit as u128)
}

/// A whole number after it went through single precision and back.
pub open spec fn through_single(n: u32) -> u32 {
    let x = nearest_float(n as nat, SINGLE as nat);
    if x > u32::MAX {
        u32::MAX
    } else {
        x as u32
    }
}

pub fn single_of(n: u32) -> (r: u32)
    ensures
        r == through_single(n),
        n < SINGLE ==> r == n,
{
    let x: u128 = round_to_float(n as u64, SINGLE);
    if x > u32::MAX as u128 {
        u32::MAX
    } else {
        x as u32
    }
}

/// Single precision holds whole numbers of up to 24 bits exactly.
pub proof fn lemma_single_exact(n: u32)
    requires
        n < 0x100_0000,
    ensures
        through_single(n) == n,
{
    let x = n as nat;
    assert(x / 1 == x && x % 1 == 0);
    assert(float_unit(x, SINGLE as nat) == 1);
    assert(x * 1 == x) by (nonlinear_arith);
}

/// `n` in double precision over `unit`, a power of two, in units of one over
/// `scale`, rounded to the nearest, halves to the even one.
pub open spec fn scaled(n: u64, unit: nat, scale: nat) -> nat {
    round_even(nearest_float(n as nat, DOUBLE as nat) * scale, unit)
}

/// `n` in double precision over `unit`, written with that many decimal places:
/// none, one or two.
pub open spec fn fixed(n: u64, unit: nat, places: nat) -> Seq<char> {
    if places == 0 {
        decimal(scaled(n, unit, 1))
    } else if places == 1 {
        decimal(scaled(n, unit, 10) / 10) + "."@ + decimal(scaled(n, unit, 10) % 10)
    } else {
        decimal(scaled(n, unit, 100) / 100) + "."@ + padded(scaled(n, unit, 100) % 100)
    }
}

pub proof fn lemma_nearest_bound(x: nat, limit: nat)
    requires
        limit > 1,
    ensures
        nearest_float(x, limit) <= 2 * x,
{
    let unit = float_unit(x, limit);
    lemma_unit_range(x, limit);
    let q = round_even(x, unit);
    if x == 0 {
        assert(unit == 1);
        assert(q == 0);
    } else {
        assert(q * unit <= x + unit) by (nonlinear_arith)
            requires
                q == round_even(x, unit),
                unit > 0,
        ;
    }
}

fn scaled_by(n: u64, unit: u64, scale: u64) -> (r: u64)
    requires
        1024 <= unit,
        1 <= scale <= 100,
    ensures
        r == scaled(n, unit as nat, scale as nat),
{
    let x: u128 = round_to_float(n, DOUBLE);
    proof {
        lemma_nearest_bound(n as nat, DOUBLE as nat);
        assert(x * scale <= 2 * 0xffff_ffff_ffff_ffff * 100) by (nonlinear_arith)
            requires
                x <= 2 * 0xffff_ffff_ffff_ffff,
                scale <= 100,
        ;
    }
    let v: u128 = divide_round_even(x * scale as u128, unit as u128);
    proof {
        let t = (x * scale) as nat;
        let u = unit as nat;
        assert(t / u <= t / 1024) by (nonlinear_arith)
            requires
                u >= 1024,
        ;
        assert(v <= t / u + 1);
    }
    v as u64
}

/// The number in double precision over a power of two, with that many decimal
/// places.
pub fn fixed_text(n: u64, unit: u64, places: u8) -> (r: String)
    requires
        1024 <= unit,
        places <= 2,
    ensures
        r@ == fixed(n, unit as nat, places as nat),
{
    if places == 0 {
        decimal_text(scaled_by(n, unit, 1))
    } else if places == 1 {
        let v: u64 = scaled_by(n, unit, 10);
        let whole = decimal_text(v / 10);
        let part = decimal_text(v % 10);
        glue3(whole.as_str(), ".", part.as_str())
    } else {
        let v: u64 = scaled_by(n, unit, 100);
        let whole = decimal_text(v / 100);
        let part = padded_text(v % 100);
        glue3(whole.as_str(), ".", part.as_str())
    }
}

/// The least power of two that makes `n / d` fill the significand of single
/// precision when it multiplies it, where one is needed.
pub open spec fn single_scale(n: nat, d: nat) -> nat
    decreases 0x100_0000 * d - n,
{
    if n == 0 || n >= 0x80_0000 * d {
        1
    } else {
        2 * single_scale(2 * n, d)
    }
}

/// `n / d` in single precision, times `single_scale(n, d)`.
pub open spec fn single_ratio(n: nat, d: nat) -> nat {
    round_even(n * single_scale(n, d), d)
}

/// The whole part of `n / d` in single precision.
pub open spec fn single_floor(n: nat, d: nat) -> nat {
    single_ratio(n, d) / single_scale(n, d)
}

/// A side of a picture whose longest side shrinks to `most`, computed in
/// single precision and rounded, halves up; at least one.
pub open spec fn fitted_side(side: nat, longest: nat, most: nat) -> nat {
    if longest <= most {
        at_least_one(side)
    } else {
        let p = single_scale(most, longest);
        let x = nearest_float(side * single_ratio(most, longest), SINGLE as nat);
        at_least_one((2 * x + p) / (2 * p))
    }
}

pub open spec fn at_least_one(n: nat) -> nat {
    if n == 0 {
        1
    } else {
        n
    }
}

proof fn lemma_scale(n: nat, d: nat)
    requires
        1 <= d,
    ensures
        1 <= single_scale(n, d),
        exists|k: nat| single_scale(n, d) == #[trigger] pow2(k),
        n > 0 ==> n * single_scale(n, d) >= 0x80_0000 * d,
        n < 0x100_0000 * d ==> n * single_scale(n, d) < 0x100_0000 * d,
    decreases 0x100_0000 * d - n,
{
    if n == 0 || n >= 0x80_0000 * d {
        lemma2_to64();
        assert(single_scale(n, d) == pow2(0));
        assert(n * 1 == n);
    } else {
        lemma_scale(2 * n, d);
        let half = single_scale(2 * n, d);
        let k = choose|k: nat| half == #[trigger] pow2(k);
        lemma_pow2_unfold(k + 1);
        assert(single_scale(n, d) == pow2(k + 1));
        assert(n * (2 * half) == 2 * n * half) by (nonlinear_arith);
    }
}

proof fn lemma_unit_power(n: nat, limit: nat)
    requires
        limit > 1,
    ensures
        exists|k: nat| float_unit(n, limit) == #[trigger] pow2(k),
        n >= limit ==> float_unit(n, limit) * limit <= 2 * n,
    decreases n,
{
    if n < limit {
        lemma2_to64();
        assert(float_unit(n, limit) == pow2(0));
    } else {
        lemma_unit_power(n / 2, limit);
        let half = float_unit(n / 2, limit);
        let k = choose|k: nat| half == #[trigger] pow2(k);
        lemma_pow2_unfold(k + 1);
        assert(float_unit(n, limit) == pow2(k + 1));
        if n / 2 < limit {
            assert(half == 1);
        }
        assert((2 * half) * limit == 2 * (half * limit)) by (nonlinear_arith);
        assert(1 * limit == limit);
    }
}

/// Rounding to a spacing does not go beyond a multiple of it.
proof fn lemma_round_below(n: nat, unit: nat, most: nat)
    requires
        unit >= 1,
        n <= most * unit,
    ensures
        round_even(n, unit) <= most,
{
    let q = n / unit;
    let r = n % unit;
    lemma_fundamental_div_mod(n as int, unit as int);
    assert(q <= most && (r > 0 ==> q < most)) by (nonlinear_arith)
        requires
            n == unit * q + r,
            0 <= r < unit,
            n <= most * unit,
    ;
}

/// The ratio of a lesser to a greater number is at most one.
proof fn lemma_ratio_below_one(n: nat, d: nat)
    requires
        n <= d,
        1 <= d,
    ensures
        single_ratio(n, d) <= single_scale(n, d),
{
    let p = single_scale(n, d);
    assert(n * p <= p * d) by (nonlinear_arith)
        requires
            n <= d,
            0 <= p,
    ;
    lemma_round_below(n * p, d, p);
}

/// Of two powers of two, the lesser divides the greater.
proof fn lemma_powers_divide(a: nat, b: nat) -> (q: nat)
    requires
        pow2(a) <= pow2(b),
    ensures
        pow2(b) == q * pow2(a),
{
    if a > b {
        lemma_pow2_strictly_increases(b, a);
    }
    let c = (b - a) as nat;
    lemma_pow2_adds(c, a);
    pow2(c)
}

/// A rounded quotient is at most half a unit above the true one.
proof fn lemma_round_close(n: nat, d: nat)
    requires
        d >= 1,
    ensures
        2 * (round_even(n, d) * d) <= 2 * n + d,
{
    let q = n / d;
    let r = n % d;
    lemma_fundamental_div_mod(n as int, d as int);
    assert(2 * (q * d) <= 2 * n && (2 * r >= d ==> 2 * ((q + 1) * d) <= 2 * n + d))
        by (nonlinear_arith)
        requires
            n == d * q + r,
            0 <= r < d,
    ;
}

/// A side that was fitted is no longer than the side that the longest one is
/// fitted to, as long as the sides are no longer than a quarter of what single
/// precision counts to.
pub proof fn lemma_fitted_fits(side: nat, longest: nat, most: nat)
    requires
        side <= longest <= 0x40_0000,
        1 <= most,
    ensures
        fitted_side(side, longest, most) <= most,
{
    if longest > most {
        let p = single_scale(most, longest);
        let s = single_ratio(most, longest);
        let n = side * s;
        let limit = SINGLE as nat;
        let u = float_unit(n, limit);
        let x = nearest_float(n, limit);
        lemma_scale(most, longest);
        lemma_round_close(most * p, longest);
        lemma_unit_range(n, limit);
        lemma_unit_power(n, limit);
        lemma_round_close(n, u);
        assert(2 * n <= 2 * (most * p) + longest) by (nonlinear_arith)
            requires
                n == side * s,
                side <= longest,
                2 * (s * longest) <= 2 * (most * p) + longest,
        ;
        assert(4 * (most * p) + longest < 0x100_0000 * p) by (nonlinear_arith)
            requires
                most < longest <= 0x40_0000,
                most * p >= 0x80_0000 * longest,
                p >= 1,
        ;
        assert(0x100_0000 * longest <= 2 * (most * p)) by (nonlinear_arith)
            requires
                most * p >= 0x80_0000 * longest,
        ;
        assert(longest + u < p);
        assert((2 * x + p) / (2 * p) <= most) by (nonlinear_arith)
            requires
                2 * x <= 2 * n + u,
                2 * n <= 2 * (most * p) + longest,
                longest + u < p,
        ;
    }
}

/// A side that was fitted is no longer than it was.
pub proof fn lemma_fitted_side(side: nat, longest: nat, most: nat)
    requires
        1 <= side <= longest,
        1 <= most,
        longest < SINGLE,
    ensures
        1 <= fitted_side(side, longest, most) <= side,
{
    if longest > most {
        let p = single_scale(most, longest);
        let s = single_ratio(most, longest);
        let n = side * s;
        let limit = SINGLE as nat;
        let u = float_unit(n, limit);
        lemma_scale(most, longest);
        lemma_ratio_below_one(most, longest);
        lemma_unit_range(n, limit);
        lemma_unit_power(n, limit);
        assert(n <= side * p) by (nonlinear_arith)
            requires
                n == side * s,
                s <= p,
                0 <= side,
        ;
        assert(u <= p) by {
            if n >= limit {
                assert(p >= 0x80_0000) by (nonlinear_arith)
                    requires
                        most * p >= 0x80_0000 * longest,
                        1 <= most < longest,
                ;
                assert(u * 0x100_0000 <= 2 * n);
                assert(2 * n <= 2 * (0x100_0000 * p)) by (nonlinear_arith)
                    requires
                        n <= side * p,
                        side < 0x100_0000,
                        0 <= p,
                ;
                let a = choose|k: nat| u == #[trigger] pow2(k);
                let b = choose|k: nat| p == #[trigger] pow2(k);
                if u > p {
                    if a <= b {
                        if a < b {
                            lemma_pow2_strictly_increases(a, b);
                        }
                    }
                    lemma_pow2_unfold(a);
                    if b < a - 1 {
                        lemma_pow2_strictly_increases(b, (a - 1) as nat);
                    }
                    assert(u >= 2 * p);
                    assert(n < 0x100_0000 * p) by (nonlinear_arith)
                        requires
                            n <= side * p,
                            side < 0x100_0000,
                            1 <= p,
                    ;
                }
            }
        }
        let a = choose|k: nat| u == #[trigger] pow2(k);
        let b = choose|k: nat| p == #[trigger] pow2(k);
        let q = lemma_powers_divide(a, b);
        assert(side * p == (side * q) * u) by (nonlinear_arith)
            requires
                p == q * u,
        ;
        lemma_round_below(n, u, side * q);
        let x = nearest_float(n, limit);
        assert(x <= side * p) by (nonlinear_arith)
            requires
                x == round_even(n, u) * u,
                round_even(n, u) <= side * q,
                side * p == (side * q) * u,
                0 <= u,
        ;
        assert((2 * x + p) / (2 * p) <= side) by (nonlinear_arith)
            requires
                x <= side * p,
                1 <= p,
        ;
    }
}

fn scale_of(n: u64, d: u64) -> (r: u64)
    requires
        1 <= d < 0x100_0000,
        n < 0x100_0000 * d,
    ensures
        r == single_scale(n as nat, d as nat),
        1 <= r,
        n > 0 ==> r <= 0x100_0000 * d,
    decreases 0x100_0000 * d - n,
{
    if n == 0 || n >= 0x80_0000 * d {
        1
    } else {
        let half: u64 = scale_of(2 * n, d);
        proof {
            lemma_scale(n as nat, d as nat);
            assert(single_scale(n as nat, d as nat) == 2 * half);
            assert(2 * half <= 0x100_0000 * d) by (nonlinear_arith)
                requires
                    n * (2 * half) < 0x100_0000 * d,
                    1 <= n,
                    0 <= half,
            ;
        }
        2 * half
    }
}

fn ratio_of(n: u64, d: u64, p: u64) -> (r: u64)
    requires
        1 <= d < 0x100_0000,
        n < 0x100_0000 * d,
        p == single_scale(n as nat, d as nat),
    ensures
        r == single_ratio(n as nat, d as nat),
        r <= 0x100_0000,
{
    proof {
        lemma_scale(n as nat, d as nat);
        assert(n * p < 0x100_0000 * d);
        lemma_round_below((n * p) as nat, d as nat, 0x100_0000);
    }
    let x: u128 = divide_round_even((n * p) as u128, d as u128);
    x as u64
}

/// The whole part of a quotient computed in single precision.
pub fn single_floor_of(n: u64, d: u64) -> (r: u64)
    requires
        1 <= d < SINGLE,
        n < SINGLE * d,
    ensures
        r == single_floor(n as nat, d as nat),
{
    let p: u64 = scale_of(n, d);
    let m: u64 = ratio_of(n, d, p);
    m / p
}

/// A side of a picture whose longest side shrinks to `most`.
pub fn fit_side(side: u32, longest: u32, most: u32) -> (r: u32)
    requires
        side <= longest < SINGLE,
        1 <= most,
    ensures
        r == fitted_side(side as nat, longest as nat, most as nat),
        1 <= r,
        side >= 1 ==> r <= side,
{
    proof {
        if side >= 1 {
            lemma_fitted_side(side as nat, longest as nat, most as nat);
        }
    }
    if longest <= most {
        return if side == 0 {
            1
        } else {
            side
        };
    }
    let p: u64 = scale_of(most as u64, longest as u64);
    let s: u64 = ratio_of(most as u64, longest as u64, p);
    assert(side * s <= 0x100_0000 * 0x100_0000) by (nonlinear_arith)
        requires
            0 <= side <= 0x100_0000,
            0 <= s <= 0x100_0000,
    ;
    let x: u128 = round_to_float(side as u64 * s, SINGLE);
    proof {
        lemma_scale(most as nat, longest as nat);
        lemma_nearest_bound(side as nat * s as nat, SINGLE as nat);
    }
    let y: u128 = (2 * x + p as u128) / (2 * p as u128);
    proof {
        if side == 0 {
            assert(side * s == 0);
            assert(x == 0);
            assert((2 * x + p) / (2 * p) == 0) by (nonlinear_arith)
                requires
                    x == 0,
                    p >= 1,
            ;
        }
    }
    if y == 0 {
        1
    } else {
        y as u32
    }
}

/// Rounding goes to the nearest whole number, and a half to the even one.
pub proof fn law_round_even(n: nat, d: nat)
    requires
        d >= 1,
    ensures
        ({
            let q = round_even(n, d);
            &&& -(d as int) <= 2 * (q * d - n) <= d
            &&& (2 * (q * d - n) == d || 2 * (n - q * d) == d ==> q % 2 == 0)
        }),
        round_even(n * d, d) == n,
{
    let q = n / d;
    let r = n % d;
    lemma_fundamental_div_mod(n as int, d as int);
    assert((q + 1) * d == q * d + d) by (nonlinear_arith);
    assert(q * d == d * q) by (nonlinear_arith);
    assert((n * d) / d == n && (n * d) % d == 0) by (nonlinear_arith)
        requires
            d >= 1,
    ;
    if r == 0 {
        assert(round_even(n, d) == q);
    }
    if 2 * r == d && q % 2 != 0 {
        assert((q + 1) % 2 == 0);
    }
}

/// A number that double precision holds exactly is told over a unit as the
/// nearest multiple of one over the scale.
pub proof fn law_scaled(n: u64, unit: nat, scale: nat)
    requires
        n < 0x20_0000_0000_0000,
        unit >= 1,
    ensures
        -(unit as int) <= 2 * (scaled(n, unit, scale) * unit - n * scale) <= unit,
{
    lemma_exact_float(n as nat, DOUBLE as nat);
    law_round_even(n as nat * scale, unit);
}

pub proof fn lemma_exact_float(n: nat, limit: nat)
    requires
        n < limit,
    ensures
        nearest_float(n, limit) == n,
{
    assert(n / 1 == n && n % 1 == 0);
    assert(float_unit(n, limit) == 1);
    assert(n * 1 == n) by (nonlinear_arith);
}

/// A whole number of units is told as that number.
pub proof fn law_fixed(k: nat, unit: nat)
    requires
        unit >= 1,
        k * unit < 0x20_0000_0000_0000,
    ensures
        fixed((k * unit) as u64, unit, 0) == decimal(k),
        fixed((k * unit) as u64, unit, 1) == decimal(k) + "."@ + "0"@,
        fixed((k * unit) as u64, unit, 2) == decimal(k) + "."@ + "00"@,
{
    reveal_strlit("0");
    reveal_strlit("00");
    let n = k * unit;
    lemma_exact_float(n, DOUBLE as nat);
    assert(n * 1 == k * unit) by (nonlinear_arith)
        requires
            n == k * unit,
    ;
    assert(n * 10 == (10 * k) * unit && n * 100 == (100 * k) * unit) by (nonlinear_arith)
        requires
            n == k * unit,
    ;
    law_round_even(k, unit);
    law_round_even((10 * k) as nat, unit);
    law_round_even((100 * k) as nat, unit);
    assert((10 * k) / 10 == k && (10 * k) % 10 == 0);
    assert((100 * k) / 100 == k && (100 * k) % 100 == 0);
    assert(decimal(0) =~= "0"@);
    assert(padded(0) =~= "00"@);
}

/// A quotient that is a whole number is told as that number.
pub proof fn law_single_floor(q: nat, d: nat)
    requires
        d >= 1,
    ensures
        single_floor(q * d, d) == q,
{
    let n = q * d;
    let p = single_scale(n, d);
    lemma_scale(n, d);
    assert(n * p == (q * p) * d) by (nonlinear_arith)
        requires
            n == q * d,
    ;
    law_round_even(q * p, d);
    assert((q * p) / p == q) by (nonlinear_arith)
        requires
            p >= 1,
    ;
}

} // verus!
