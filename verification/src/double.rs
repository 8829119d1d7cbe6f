//! Arithmetic on double-precision numbers, carried out on integers.
//!
//! A size or a progress fraction is shown as IEEE 754 double-precision arithmetic
//! rounds it. Every number that occurs here is a ratio of integers well inside the
//! normal range, so that its double is the nearest number with a significand of
//! fifty-three bits, ties going to the even significand.

use vstd::arithmetic::power2::*;
use vstd::prelude::*;

verus! {

/// The integer nearest to `n / d`; of two equally near, the even one.
pub open spec fn rounded(n: nat, d: nat) -> nat {
    let q = n / d;
    let r = n % d;
    if 2 * r < d || (2 * r == d && q % 2 == 0) {
        q
    } else {
        q + 1
    }
}

/// The least power of two, `u`, such that `n / (t * u)` is below two to the
/// power of fifty-three.
pub open spec fn coarse(n: nat, t: nat) -> nat
    decreases n - t,
{
    if t == 0 || n < 0x20_0000_0000_0000 * t {
        1
    } else {
        2 * coarse(n, 2 * t)
    }
}

/// The least power of two, `u`, such that `n * u / t` reaches two to the power
/// of fifty-two; one when `n` is nought.
pub open spec fn fine(n: nat, t: nat) -> nat
    decreases
            (if n < 0x10_0000_0000_0000 * t {
                0x10_0000_0000_0000 * t - n
            } else {
                0
            }),
{
    if n == 0 || n >= 0x10_0000_0000_0000 * t {
        1
    } else {
        2 * fine(2 * n, t)
    }
}

/// The double nearest to the integer `n`.
pub open spec fn double_of(n: nat) -> nat {
    rounded(n, coarse(n, 1)) * coarse(n, 1)
}

/// The significand of the double nearest to `a / t`, which is this number times
/// `coarse(a, t)` and divided by `fine(a, t)`.
pub open spec fn quotient_significand(a: nat, t: nat) -> nat {
    rounded(a * fine(a, t), t * coarse(a, t))
}

/// The integer part of `done / total * scale`, each of the numbers and each result
/// being rounded to a double.
pub open spec fn scaled_ratio(done: nat, total: nat, scale: nat) -> nat {
    let a = double_of(done);
    let t = double_of(total);
    double_of(quotient_significand(a, t) * scale) * coarse(a, t) / fine(a, t)
}

/// Of `n / d`, the nearest integer, ties going to the even one.
pub fn round_half_even(n: u128, d: u128) -> (r: u128)
    requires
        d > 0,
    ensures
        r as nat == rounded(n as nat, d as nat),
{
    let q: u128 = n / d;
    let r: u128 = n % d;
    if r < d - r || (r == d - r && q % 2 == 0) {
        q
    } else {
        proof {
            lemma_quotient_below(n as nat, d as nat);
        }
        q + 1
    }
}

proof fn lemma_quotient_below(n: nat, d: nat)
    requires
        d > 0,
    ensures
        n / d <= n,
        d > 1 && n > 0 ==> n / d < n,
{
    if d > 1 && n > 0 {
        vstd::arithmetic::div_mod::lemma_div_decreases(n as int, d as int);
    } else if d == 1 {
        vstd::arithmetic::div_mod::lemma_div_basics(n as int);
    } else {
        vstd::arithmetic::div_mod::lemma_div_basics(d as int);
    }
}

/// The double nearest to `n`.
pub fn nearest_double(n: u128) -> (r: u128)
    requires
        n <= 0x1_0000_0000_0000_0000_0000_0000,
    ensures
        r as nat == double_of(n as nat),
{
    let mut unit: u128 = 1;
    while n >= 0x20_0000_0000_0000 * unit
        invariant
            1 <= unit,
            n <= 0x1_0000_0000_0000_0000_0000_0000,
            unit == 1 || 0x10_0000_0000_0000 * unit <= n,
            coarse(n as nat, 1) == unit * coarse(n as nat, unit as nat),
        decreases n - unit,
    {
        proof {
            let c = coarse(n as nat, (2 * unit) as nat);
            assert(unit * (2 * c) == (2 * unit) * c) by (nonlinear_arith);
        }
        unit = unit * 2;
    }
    proof {
        assert(coarse(n as nat, 1) == unit) by (nonlinear_arith)
            requires
                coarse(n as nat, 1) == unit * coarse(n as nat, unit as nat),
                coarse(n as nat, unit as nat) == 1,
        ;
        lemma_rounded_bounds(n as nat, unit as nat);
        let m = rounded(n as nat, unit as nat);
        assert(m * unit <= 2 * n + 2 * unit) by (nonlinear_arith)
            requires
                2 * m * unit <= 2 * n + unit,
        ;
    }
    round_half_even(n, unit) * unit
}

/// Rounding moves a ratio by half a unit at most.
pub proof fn lemma_rounded_bounds(n: nat, d: nat)
    requires
        d > 0,
    ensures
        2 * rounded(n, d) * d <= 2 * n + d,
        2 * n <= 2 * rounded(n, d) * d + d,
{
    let q = n / d;
    let r = n % d;
    assert(n == q * d + r) by {
        vstd::arithmetic::div_mod::lemma_fundamental_div_mod(n as int, d as int);
        assert(d * q == q * d) by (nonlinear_arith);
    }
    assert(2 * (q + 1) * d == 2 * (q * d) + 2 * d) by (nonlinear_arith);
    assert(2 * q * d == 2 * (q * d)) by (nonlinear_arith);
}

/// What `coarse` is: one, or as large as keeps the significand at full width.
pub proof fn lemma_coarse(n: nat, t: nat)
    requires
        t > 0,
    ensures
        coarse(n, t) >= 1,
        n < 0x20_0000_0000_0000 * (t * coarse(n, t)),
        coarse(n, t) == 1 || 0x10_0000_0000_0000 * (t * coarse(n, t)) <= n,
    decreases n - t,
{
    if n >= 0x20_0000_0000_0000 * t {
        lemma_coarse(n, 2 * t);
        let c = coarse(n, 2 * t);
        assert((2 * t) * c == t * (2 * c)) by (nonlinear_arith);
        if c == 1 {
            assert(t * (2 * c) == 2 * t) by (nonlinear_arith)
                requires
                    c == 1,
            ;
        }
    } else {
        assert(t * 1 == t);
    }
}

/// What `fine` is: one, or as large as keeps the significand at full width.
proof fn lemma_fine(n: nat, t: nat)
    requires
        n > 0,
    ensures
        fine(n, t) >= 1,
        n * fine(n, t) >= 0x10_0000_0000_0000 * t,
        fine(n, t) == 1 || n * fine(n, t) < 0x20_0000_0000_0000 * t,
    decreases
            (if n < 0x10_0000_0000_0000 * t {
                0x10_0000_0000_0000 * t - n
            } else {
                0
            }),
{
    if n < 0x10_0000_0000_0000 * t {
        lemma_fine(2 * n, t);
        let f = fine(2 * n, t);
        assert((2 * n) * f == n * (2 * f)) by (nonlinear_arith);
        if f == 1 {
            assert(n * (2 * f) == 2 * n) by (nonlinear_arith)
                requires
                    f == 1,
            ;
        }
    } else {
        assert(n * 1 == n);
    }
}

/// The scaled quotient is below two to the power of fifty-three.
proof fn lemma_scaled_quotient(a: nat, t: nat)
    requires
        t > 0,
    ensures
        a * fine(a, t) < 0x20_0000_0000_0000 * (t * coarse(a, t)),
{
    lemma_coarse(a, t);
    if a == 0 {
        assert(0 * fine(a, t) == 0);
        assert(t * coarse(a, t) > 0) by (nonlinear_arith)
            requires
                t > 0,
                coarse(a, t) >= 1,
        ;
    } else {
        lemma_fine(a, t);
        assert(a * 1 == a);
        assert(t * 1 == t);
        if fine(a, t) != 1 {
            assert(t * coarse(a, t) >= t) by (nonlinear_arith)
                requires
                    coarse(a, t) >= 1,
            ;
        }
    }
}

/// A ratio below an integer rounds to that integer at most.
pub proof fn lemma_rounded_at_most(n: nat, d: nat, k: nat)
    requires
        d > 0,
        n <= k * d,
    ensures
        rounded(n, d) <= k,
{
    let q = n / d;
    let r = n % d;
    vstd::arithmetic::div_mod::lemma_fundamental_div_mod(n as int, d as int);
    assert(d * q == q * d) by (nonlinear_arith);
    if q >= k {
        assert(q * d >= k * d) by (nonlinear_arith)
            requires
                q >= k,
        ;
        assert(r == 0);
        assert(q == k) by (nonlinear_arith)
            requires
                q * d <= k * d,
                q >= k,
                d > 0,
        ;
    }
}

/// A double is positive when the integer is, and at most twice as large.
pub proof fn lemma_double_bounds(n: nat)
    ensures
        double_of(n) <= 2 * n,
        n > 0 ==> double_of(n) > 0,
{
    lemma_coarse(n, 1);
    let c = coarse(n, 1);
    assert(1 * c == c);
    lemma_rounded_bounds(n, c);
    let m = rounded(n, c);
    assert(2 * m * c == 2 * (m * c)) by (nonlinear_arith);
    if c == 1 {
        lemma_rounded_at_most(n, 1, n);
        assert(m * 1 == m);
        assert(n / 1 == n);
    }
}

/// The integer part of `done / total * scale` in double-precision arithmetic, or the
/// greatest `u64` when it does not fit.
#[verifier::spinoff_prover]
pub fn scaled_progress(done: u64, total: u64, scale: u64) -> (r: u64)
    requires
        total > 0,
        scale <= 1024,
    ensures
        scaled_ratio(done as nat, total as nat, scale as nat) <= u64::MAX ==> r as nat
            == scaled_ratio(done as nat, total as nat, scale as nat),
        scaled_ratio(done as nat, total as nat, scale as nat) > u64::MAX ==> r == u64::MAX,
{
    let a: u128 = nearest_double(done as u128);
    let t: u128 = nearest_double(total as u128);
    proof {
        lemma_double_bounds(done as nat);
        lemma_double_bounds(total as nat);
        lemma_coarse(a as nat, t as nat);
        lemma_scaled_quotient(a as nat, t as nat);
        if a > 0 {
            lemma_fine(a as nat, t as nat);
        }
    }
    let mut num: u128 = a;
    let mut up: u128 = 1;
    assert(a * 1 == a);
    while num != 0 && num < 0x10_0000_0000_0000 * t
        invariant
            a <= 0x2_0000_0000_0000_0000,
            0 < t <= 0x2_0000_0000_0000_0000,
            num == a * up,
            up >= 1,
            num == 0 || up <= num,
            num <= 0x20_0000_0000_0000 * t || up == 1,
            fine(a as nat, t as nat) == up * fine(num as nat, t as nat),
        decreases
                (if num < 0x10_0000_0000_0000 * t {
                    0x10_0000_0000_0000 * t - num
                } else {
                    0
                }),
    {
        proof {
            let f = fine((2 * num) as nat, t as nat);
            assert(up * (2 * f) == (2 * up) * f) by (nonlinear_arith);
            assert(a * (2 * up) == 2 * (a * up)) by (nonlinear_arith);
        }
        num = num * 2;
        up = up * 2;
    }
    assert(up * 1 == up);
    assert(fine(a as nat, t as nat) == up);
    let mut den: u128 = t;
    let mut down: u128 = 1;
    assert(t * 1 == t);
    while a >= 0x20_0000_0000_0000 * den
        invariant
            a <= 0x2_0000_0000_0000_0000,
            0 < t <= 0x2_0000_0000_0000_0000,
            den == t * down,
            1 <= down <= den,
            den == t || den <= a,
            coarse(a as nat, t as nat) == down * coarse(a as nat, den as nat),
        decreases a - den,
    {
        proof {
            let c = coarse(a as nat, (2 * den) as nat);
            assert(down * (2 * c) == (2 * down) * c) by (nonlinear_arith);
            assert(t * (2 * down) == 2 * (t * down)) by (nonlinear_arith);
        }
        den = den * 2;
        down = down * 2;
    }
    assert(down * 1 == down);
    assert(coarse(a as nat, t as nat) == down);
    let m: u128 = round_half_even(num, den);
    proof {
        lemma_rounded_at_most(num as nat, den as nat, 0x20_0000_0000_0000);
        assert(m * scale <= 0x20_0000_0000_0000 * 1024) by (nonlinear_arith)
            requires
                m <= 0x20_0000_0000_0000,
                scale <= 1024,
        ;
        lemma_double_bounds((m * scale) as nat);
        assert(down <= 0x2000) by (nonlinear_arith)
            requires
                down == 1 || 0x10_0000_0000_0000 * (t * down) <= a,
                t >= 1,
                a <= 0x2_0000_0000_0000_0000,
        ;
    }
    let d: u128 = nearest_double(m * scale as u128);
    proof {
        assert(d * down <= 0x100_0000_0000_0000_0000 * 0x2000) by (nonlinear_arith)
            requires
                d <= 0x100_0000_0000_0000_0000,
                down <= 0x2000,
        ;
    }
    let q: u128 = d * down / up;
    if q > u64::MAX as u128 {
        u64::MAX
    } else {
        q as u64
    }
}

proof fn lemma_coarse_power(n: nat, t: nat) -> (k: nat)
    ensures
        coarse(n, t) == pow2(k),
    decreases n - t,
{
    lemma2_to64();
    if t == 0 || n < 0x20_0000_0000_0000 * t {
        0
    } else {
        let k = lemma_coarse_power(n, 2 * t);
        lemma_pow2_unfold(k + 1);
        k + 1
    }
}

proof fn lemma_fine_power(n: nat, t: nat) -> (k: nat)
    ensures
        fine(n, t) == pow2(k),
    decreases
            (if n < 0x10_0000_0000_0000 * t {
                0x10_0000_0000_0000 * t - n
            } else {
                0
            }),
{
    lemma2_to64();
    if n == 0 || n >= 0x10_0000_0000_0000 * t {
        0
    } else {
        let k = lemma_fine_power(2 * n, t);
        lemma_pow2_unfold(k + 1);
        k + 1
    }
}

/// Of two powers of two, the greater is a multiple of the lesser.
proof fn lemma_power_divides(i: nat, j: nat) -> (q: nat)
    requires
        pow2(i) <= pow2(j),
    ensures
        pow2(j) == q * pow2(i),
        q >= 1,
{
    if i > j {
        lemma_pow2_strictly_increases(j, i);
    }
    let d = (j - i) as nat;
    lemma_pow2_adds(d, i);
    lemma_pow2_pos(d);
    pow2(d)
}

/// A multiple rounds to itself.
proof fn lemma_rounded_exact(k: nat, d: nat)
    requires
        d > 0,
    ensures
        rounded(k * d, d) == k,
{
    vstd::arithmetic::div_mod::lemma_div_multiples_vanish(k as int, d as int);
    vstd::arithmetic::div_mod::lemma_mod_multiples_basic(k as int, d as int);
    assert(d * k == k * d) by (nonlinear_arith);
}

/// Rounding keeps the order.
proof fn lemma_rounded_monotone(n1: nat, n2: nat, d: nat)
    requires
        d > 0,
        n1 <= n2,
    ensures
        rounded(n1, d) <= rounded(n2, d),
{
    vstd::arithmetic::div_mod::lemma_div_is_ordered(n1 as int, n2 as int, d as int);
    vstd::arithmetic::div_mod::lemma_fundamental_div_mod(n1 as int, d as int);
    vstd::arithmetic::div_mod::lemma_fundamental_div_mod(n2 as int, d as int);
}

/// A ratio above an integer rounds to that integer at least.
proof fn lemma_rounded_at_least(n: nat, d: nat, k: nat)
    requires
        d > 0,
        n >= k * d,
    ensures
        rounded(n, d) >= k,
{
    lemma_rounded_exact(k, d);
    lemma_rounded_monotone(k * d, n, d);
}

proof fn lemma_coarse_monotone(n1: nat, n2: nat, t: nat)
    requires
        n1 <= n2,
    ensures
        coarse(n1, t) <= coarse(n2, t),
    decreases n2 - t,
{
    if t == 0 || n2 < 0x20_0000_0000_0000 * t {
    } else if n1 < 0x20_0000_0000_0000 * t {
        lemma_coarse(n2, t);
    } else {
        lemma_coarse_monotone(n1, n2, 2 * t);
    }
}

/// A double lies between the least and the greatest significand at its scale.
proof fn lemma_double_range(n: nat)
    ensures
        double_of(n) <= 0x20_0000_0000_0000 * coarse(n, 1),
        coarse(n, 1) == 1 || 0x10_0000_0000_0000 * coarse(n, 1) <= double_of(n),
{
    lemma_coarse(n, 1);
    let c = coarse(n, 1);
    assert(1 * c == c);
    lemma_rounded_at_most(n, c, 0x20_0000_0000_0000);
    let m = rounded(n, c);
    assert(m * c <= 0x20_0000_0000_0000 * c) by (nonlinear_arith)
        requires
            m <= 0x20_0000_0000_0000,
    ;
    if c != 1 {
        lemma_rounded_at_least(n, c, 0x10_0000_0000_0000);
        assert(m * c >= 0x10_0000_0000_0000 * c) by (nonlinear_arith)
            requires
                m >= 0x10_0000_0000_0000,
        ;
    }
}

/// Conversion to a double keeps the order of integers.
#[verifier::spinoff_prover]
proof fn lemma_double_monotone(n1: nat, n2: nat)
    requires
        n1 <= n2,
    ensures
        double_of(n1) <= double_of(n2),
{
    lemma_coarse(n1, 1);
    lemma_coarse(n2, 1);
    lemma_coarse_monotone(n1, n2, 1);
    let c1 = coarse(n1, 1);
    let c2 = coarse(n2, 1);
    if c1 == c2 {
        lemma_rounded_monotone(n1, n2, c1);
        let m1 = rounded(n1, c1);
        let m2 = rounded(n2, c1);
        assert(m1 * c1 <= m2 * c1) by (nonlinear_arith)
            requires
                m1 <= m2,
        ;
    } else {
        let i = lemma_coarse_power(n1, 1);
        let j = lemma_coarse_power(n2, 1);
        let q = lemma_power_divides(i, j);
        assert(2 * c1 <= c2) by (nonlinear_arith)
            requires
                c2 == q * c1,
                c1 != c2,
                q >= 1,
        ;
        lemma_double_range(n1);
        lemma_double_range(n2);
    }
}

/// A product of a power of two and a short integer is a double already, and no smaller
/// integer is rounded beyond it.
#[verifier::spinoff_prover]
proof fn lemma_short_is_double(n: nat, j: nat, scale: nat)
    requires
        n <= pow2(j) * scale,
        scale <= 0x10_0000_0000_0000,
    ensures
        double_of(n) <= pow2(j) * scale,
        n == pow2(j) * scale ==> double_of(n) == n,
{
    let f = pow2(j);
    lemma_pow2_pos(j);
    lemma_coarse(n, 1);
    let c = coarse(n, 1);
    assert(1 * c == c);
    let i = lemma_coarse_power(n, 1);
    assert(c <= f) by (nonlinear_arith)
        requires
            c == 1 || 0x10_0000_0000_0000 * c <= n,
            n <= f * scale,
            scale <= 0x10_0000_0000_0000,
            f >= 1,
    ;
    let q = lemma_power_divides(i, j);
    let k = q * scale;
    assert(f * scale == k * c) by (nonlinear_arith)
        requires
            f == q * c,
            k == q * scale,
    ;
    lemma_rounded_at_most(n, c, k);
    let m = rounded(n, c);
    assert(m * c <= k * c) by (nonlinear_arith)
        requires
            m <= k,
    ;
    lemma_rounded_exact(k, c);
}

/// As long as no more is done than there is, the progress stays within the scale: a
/// hundred per cent is never passed.
#[verifier::spinoff_prover]
pub proof fn law_progress_bounded(done: nat, total: nat, scale: nat)
    requires
        0 < total,
        done <= total,
        scale <= 0x10_0000_0000_0000,
    ensures
        scaled_ratio(done, total, scale) <= scale,
{
    let a = double_of(done);
    let t = double_of(total);
    lemma_double_bounds(total);
    lemma_double_monotone(done, total);
    let f = fine(a, t);
    let j = lemma_fine_power(a, t);
    lemma_pow2_pos(j);
    assert(coarse(a, t) == 1);
    assert(t * 1 == t);
    assert(a * f <= f * t) by (nonlinear_arith)
        requires
            a <= t,
    ;
    lemma_rounded_at_most(a * f, t, f);
    let m = quotient_significand(a, t);
    assert(m * scale <= f * scale) by (nonlinear_arith)
        requires
            m <= f,
    ;
    lemma_short_is_double(m * scale, j, scale);
    let d = double_of(m * scale);
    assert(d * 1 == d);
    assert(d / f <= scale) by {
        vstd::arithmetic::div_mod::lemma_div_is_ordered(d as int, (f * scale) as int, f as int);
        assert(f * scale == scale * f) by (nonlinear_arith);
        vstd::arithmetic::div_mod::lemma_div_multiples_vanish(scale as int, f as int);
    }
}

/// Once all is done, the progress is the whole scale: a hundred per cent.
#[verifier::spinoff_prover]
pub proof fn law_progress_complete(total: nat, scale: nat)
    requires
        0 < total,
        scale <= 0x10_0000_0000_0000,
    ensures
        scaled_ratio(total, total, scale) == scale,
{
    let a = double_of(total);
    lemma_double_bounds(total);
    lemma_fine(a, a);
    let f = fine(a, a);
    let j = lemma_fine_power(a, a);
    lemma_pow2_pos(j);
    assert(coarse(a, a) == 1);
    assert(a * 1 == a);
    assert(a * f == f * a) by (nonlinear_arith);
    lemma_rounded_exact(f, a);
    lemma_short_is_double(f * scale, j, scale);
    let d = double_of(f * scale);
    assert(d * 1 == d);
    assert(f * scale == scale * f) by (nonlinear_arith);
    vstd::arithmetic::div_mod::lemma_div_multiples_vanish(scale as int, f as int);
}

/// The lesser of two doubles falls short of the greater by no less than the greater
/// divided by two to the power of fifty-three.
proof fn lemma_gap(done: nat, total: nat)
    requires
        double_of(done) < double_of(total),
    ensures
        double_of(total) <= 0x20_0000_0000_0000 * (double_of(total) - double_of(done)),
{
    let a = double_of(done);
    let t = double_of(total);
    if done >= total {
        lemma_double_monotone(total, done);
    }
    lemma_coarse(done, 1);
    lemma_coarse(total, 1);
    lemma_coarse_monotone(done, total, 1);
    lemma_double_range(done);
    lemma_double_range(total);
    let ca = coarse(done, 1);
    let ct = coarse(total, 1);
    let ma = rounded(done, ca);
    let mt = rounded(total, ct);
    if ca == ct {
        assert(t - a >= ct) by (nonlinear_arith)
            requires
                a == ma * ct,
                t == mt * ct,
                a < t,
        ;
    } else {
        let i = lemma_coarse_power(done, 1);
        let j = lemma_coarse_power(total, 1);
        let half = lemma_power_halves(i, j);
        assert(t == (2 * (mt * half)) * ca) by (nonlinear_arith)
            requires
                t == mt * ct,
                ct == 2 * half * ca,
        ;
        let u = 2 * (mt * half);
        assert(u > ma) by (nonlinear_arith)
            requires
                a == ma * ca,
                t == u * ca,
                a < t,
        ;
        assert(ma <= 0x20_0000_0000_0000) by (nonlinear_arith)
            requires
                ma * ca <= 0x20_0000_0000_0000 * ca,
                ca >= 1,
        ;
        assert(t - a == (u - ma) * ca) by (nonlinear_arith)
            requires
                a == ma * ca,
                t == u * ca,
        ;
        assert(u <= 0x20_0000_0000_0000 * (u - ma)) by {
            if u - ma == 1 {
                assert(u != 0x20_0000_0000_0001);
            }
        }
        assert(u * ca <= (0x20_0000_0000_0000 * (u - ma)) * ca) by (nonlinear_arith)
            requires
                u <= 0x20_0000_0000_0000 * (u - ma),
        ;
        assert((0x20_0000_0000_0000 * (u - ma)) * ca == 0x20_0000_0000_0000 * ((u - ma) * ca))
            by (nonlinear_arith);
    }
}

/// Of two different powers of two, the greater is an even multiple of the lesser.
proof fn lemma_power_halves(i: nat, j: nat) -> (half: nat)
    requires
        pow2(i) < pow2(j),
    ensures
        pow2(j) == 2 * half * pow2(i),
        half >= 1,
{
    if i >= j {
        if i > j {
            lemma_pow2_strictly_increases(j, i);
        }
    }
    let d = (j - i) as nat;
    lemma_pow2_adds(d, i);
    lemma_pow2_unfold(d);
    lemma_pow2_pos((d - 1) as nat);
    pow2((d - 1) as nat)
}

/// As long as the doubles of what is done and of what there is differ, the progress falls
/// short of the scale.
#[verifier::spinoff_prover]
pub proof fn law_progress_short(done: nat, total: nat, scale: nat)
    requires
        double_of(done) < double_of(total),
        0 < scale,
    ensures
        scaled_ratio(done, total, scale) < scale,
{
    let a = double_of(done);
    let t = double_of(total);
    let f = fine(a, t);
    let j = lemma_fine_power(a, t);
    lemma_pow2_pos(j);
    assert(coarse(a, t) == 1);
    assert(t * 1 == t);
    let m = quotient_significand(a, t);
    let n = m * scale;
    let d = double_of(n);
    assert(d * 1 == d);
    if a == 0 {
        assert(0 * f == 0);
        lemma_rounded_at_most(0, t, 0);
        assert(n == 0) by (nonlinear_arith)
            requires
                n == m * scale,
                m == 0,
        ;
        lemma_double_bounds(0);
        vstd::arithmetic::div_mod::lemma_div_basics(f as int);
    } else {
        lemma_gap(done, total);
        lemma_fine(a, t);
        lemma_significand_range(a, t);
        assert(f > 0x10_0000_0000_0000) by (nonlinear_arith)
            requires
                a * f >= 0x10_0000_0000_0000 * t,
                a < t,
        ;
        lemma2_to64();
        lemma2_to64_rest();
        assert(f >= 0x20_0000_0000_0000) by {
            if j <= 52 {
                if j < 52 {
                    lemma_pow2_strictly_increases(j, 52);
                }
            } else if j > 53 {
                lemma_pow2_strictly_increases(53, j);
            }
        }
        assert(a * f <= (f - 1) * t) by (nonlinear_arith)
            requires
                t <= 0x20_0000_0000_0000 * (t - a),
                f >= 0x20_0000_0000_0000,
                a < t,
        ;
        lemma_rounded_at_most(a * f, t, (f - 1) as nat);
        assert(m <= f - 1);
        if m == 0x20_0000_0000_0000 {
            assert(m <= f - 2) by {
                if j < 54 {
                    if j < 53 {
                        lemma_pow2_strictly_increases(j, 53);
                    }
                } else if j > 54 {
                    lemma_pow2_strictly_increases(54, j);
                }
            }
        }
        lemma_coarse(n, 1);
        let c = coarse(n, 1);
        assert(1 * c == c);
        lemma_rounded_bounds(n, c);
        let r = rounded(n, c);
        assert(2 * r * c == 2 * d) by (nonlinear_arith)
            requires
                d == r * c,
        ;
        assert(d < f * scale) by {
            if c == 1 {
                lemma_rounded_at_most(n, 1, n);
                assert(n <= (f - 1) * scale) by (nonlinear_arith)
                    requires
                        n == m * scale,
                        m <= f - 1,
                ;
                assert((f - 1) * scale == f * scale - scale) by (nonlinear_arith);
            } else if m == 0x20_0000_0000_0000 {
                assert(n == 0x20_0000_0000_0000 * scale) by (nonlinear_arith)
                    requires
                        n == m * scale,
                        m == 0x20_0000_0000_0000,
                ;
                assert(c <= 2 * scale);
                assert(n <= (f - 2) * scale) by (nonlinear_arith)
                    requires
                        n == m * scale,
                        m <= f - 2,
                ;
                assert((f - 2) * scale == f * scale - 2 * scale) by (nonlinear_arith);
            } else {
                assert(n <= 0x1f_ffff_ffff_ffff * scale) by (nonlinear_arith)
                    requires
                        n == m * scale,
                        m <= 0x1f_ffff_ffff_ffff,
                ;
                assert(c < 2 * scale);
                assert(n <= (f - 1) * scale) by (nonlinear_arith)
                    requires
                        n == m * scale,
                        m <= f - 1,
                ;
                assert((f - 1) * scale == f * scale - scale) by (nonlinear_arith);
            }
        }
        assert(d / f < scale) by {
            vstd::arithmetic::div_mod::lemma_fundamental_div_mod(d as int, f as int);
            let q = d / f;
            assert(q < scale) by (nonlinear_arith)
                requires
                    f * q <= d,
                    d < f * scale,
                    f > 0,
            ;
        }
    }
}

/// As long as not all is done, the progress falls short of the scale: a hundred per cent
/// is shown only at the end. From the first integer that is no double on, the number
/// before it may count as all of it.
pub proof fn law_progress_incomplete(done: nat, total: nat, scale: nat)
    requires
        done < total <= 0x20_0000_0000_0000,
        0 < scale,
    ensures
        scaled_ratio(done, total, scale) < scale,
{
    lemma_whole(done);
    lemma_whole(total);
    law_progress_short(done, total, scale);
}

/// An integer of fifty-three bits is a double already.
pub proof fn lemma_whole(n: nat)
    requires
        n <= 0x20_0000_0000_0000,
    ensures
        double_of(n) == n,
{
    if n < 0x20_0000_0000_0000 {
        assert(coarse(n, 1) == 1);
        lemma_rounded_exact(n, 1);
        assert(n * 1 == n);
    } else {
        assert(coarse(n, 2) == 1);
        assert(coarse(n, 1) == 2);
        lemma_rounded_exact(0x10_0000_0000_0000, 2);
    }
}

proof fn lemma_fine_antitone(n1: nat, n2: nat, t: nat)
    requires
        0 < n1 <= n2,
    ensures
        fine(n1, t) >= fine(n2, t),
    decreases
            (if n1 < 0x10_0000_0000_0000 * t {
                0x10_0000_0000_0000 * t - n1
            } else {
                0
            }),
{
    if n1 < 0x10_0000_0000_0000 * t {
        if n2 < 0x10_0000_0000_0000 * t {
            lemma_fine_antitone(2 * n1, 2 * n2, t);
        } else {
            lemma_fine(n1, t);
        }
    }
}

/// The significand of a quotient is of full width, unless the quotient is nought.
proof fn lemma_significand_range(a: nat, t: nat)
    requires
        t > 0,
    ensures
        quotient_significand(a, t) <= 0x20_0000_0000_0000,
        a > 0 ==> quotient_significand(a, t) >= 0x10_0000_0000_0000,
{
    lemma_coarse(a, t);
    lemma_scaled_quotient(a, t);
    let d = t * coarse(a, t);
    assert(d > 0) by (nonlinear_arith)
        requires
            d == t * coarse(a, t),
            t > 0,
            coarse(a, t) >= 1,
    ;
    lemma_rounded_at_most(a * fine(a, t), d, 0x20_0000_0000_0000);
    if a > 0 {
        lemma_fine(a, t);
        assert(t * 1 == t);
        assert(a * 1 == a);
        if coarse(a, t) != 1 {
            assert(a * fine(a, t) >= a) by (nonlinear_arith)
                requires
                    fine(a, t) >= 1,
            ;
        }
        lemma_rounded_at_least(a * fine(a, t), d, 0x10_0000_0000_0000);
    }
}

/// A quotient with the smaller value has the smaller integer part.
#[verifier::spinoff_prover]
proof fn lemma_quotient_order(x1: nat, f1: nat, x2: nat, f2: nat)
    requires
        f1 > 0,
        f2 > 0,
        x1 * f2 <= x2 * f1,
    ensures
        x1 / f1 <= x2 / f2,
{
    let q = x1 / f1;
    vstd::arithmetic::div_mod::lemma_fundamental_div_mod(x1 as int, f1 as int);
    assert(f1 * q <= x1);
    assert(q * f2 <= x2) by (nonlinear_arith)
        requires
            f1 * q <= x1,
            x1 * f2 <= x2 * f1,
            f1 > 0,
            f2 > 0,
    ;
    vstd::arithmetic::div_mod::lemma_div_is_ordered((q * f2) as int, x2 as int, f2 as int);
    vstd::arithmetic::div_mod::lemma_div_multiples_vanish(q as int, f2 as int);
    assert(f2 * q == q * f2) by (nonlinear_arith);
}

/// The more is done of a total, the greater the progress: it never runs backwards.
#[verifier::spinoff_prover]
pub proof fn law_progress_monotone(done1: nat, done2: nat, total: nat, scale: nat)
    requires
        0 < total,
        done1 <= done2,
        scale <= 0x10_0000_0000_0000,
    ensures
        scaled_ratio(done1, total, scale) <= scaled_ratio(done2, total, scale),
{
    let a1 = double_of(done1);
    let a2 = double_of(done2);
    let t = double_of(total);
    lemma_double_bounds(total);
    lemma_double_monotone(done1, done2);
    let c1 = coarse(a1, t);
    let c2 = coarse(a2, t);
    let f1 = fine(a1, t);
    let f2 = fine(a2, t);
    lemma_coarse(a1, t);
    lemma_coarse(a2, t);
    lemma_coarse_monotone(a1, a2, t);
    let m1 = quotient_significand(a1, t);
    let m2 = quotient_significand(a2, t);
    let d1 = double_of(m1 * scale);
    let d2 = double_of(m2 * scale);
    let i1 = lemma_fine_power(a1, t);
    let i2 = lemma_fine_power(a2, t);
    lemma_pow2_pos(i1);
    lemma_pow2_pos(i2);
    lemma_significand_range(a1, t);
    lemma_significand_range(a2, t);
    if a1 == 0 {
        assert(t * c1 > 0) by (nonlinear_arith)
            requires
                t > 0,
                c1 >= 1,
        ;
        assert(0 * f1 == 0);
        lemma_rounded_at_most(0, t * c1, 0);
        assert(m1 * scale == 0) by (nonlinear_arith)
            requires
                m1 == 0,
        ;
        lemma_double_bounds(0);
        assert(d1 * c1 == 0) by (nonlinear_arith)
            requires
                d1 == 0,
        ;
        vstd::arithmetic::div_mod::lemma_div_basics(f1 as int);
    } else {
        lemma_fine_antitone(a1, a2, t);
        if c1 == c2 && f1 == f2 {
            let d = t * c1;
            assert(d > 0) by (nonlinear_arith)
                requires
                    d == t * c1,
                    t > 0,
                    c1 >= 1,
            ;
            assert(a1 * f1 <= a2 * f1) by (nonlinear_arith)
                requires
                    a1 <= a2,
            ;
            lemma_rounded_monotone(a1 * f1, a2 * f1, d);
            assert(m1 * scale <= m2 * scale) by (nonlinear_arith)
                requires
                    m1 <= m2,
            ;
            lemma_double_monotone(m1 * scale, m2 * scale);
            assert((d1 * c1) * f2 <= (d2 * c2) * f1) by (nonlinear_arith)
                requires
                    d1 <= d2,
                    c1 == c2,
                    f1 == f2,
            ;
        } else {
            let k1 = lemma_coarse_power(a1, t);
            let k2 = lemma_coarse_power(a2, t);
            let p = lemma_power_divides(k1, k2);
            let q = lemma_power_divides(i2, i1);
            assert(p * q >= 2) by (nonlinear_arith)
                requires
                    c2 == p * c1,
                    f1 == q * f2,
                    p >= 1,
                    q >= 1,
                    c1 != c2 || f1 != f2,
            ;
            lemma2_to64();
            assert(pow2(52) == 0x10_0000_0000_0000 && pow2(53) == 0x20_0000_0000_0000) by {
                lemma2_to64_rest();
            }
            assert(m1 * scale <= pow2(53) * scale) by (nonlinear_arith)
                requires
                    m1 <= pow2(53),
            ;
            lemma_short_is_double(m1 * scale, 53, scale);
            assert(pow2(52) * scale <= m2 * scale) by (nonlinear_arith)
                requires
                    pow2(52) <= m2,
            ;
            lemma_short_is_double(pow2(52) * scale, 52, scale);
            lemma_double_monotone(pow2(52) * scale, m2 * scale);
            assert(d1 <= 2 * d2);
            assert((d1 * c1) * f2 <= (d2 * c2) * f1) by {
                assert((d2 * c2) * f1 == d2 * (p * q) * (c1 * f2)) by (nonlinear_arith)
                    requires
                        c2 == p * c1,
                        f1 == q * f2,
                ;
                assert(d1 <= d2 * (p * q)) by (nonlinear_arith)
                    requires
                        d1 <= 2 * d2,
                        p * q >= 2,
                ;
                assert((d1 * c1) * f2 == d1 * (c1 * f2)) by (nonlinear_arith);
                assert(d1 * (c1 * f2) <= d2 * (p * q) * (c1 * f2)) by (nonlinear_arith)
                    requires
                        d1 <= d2 * (p * q),
                ;
            }
        }
        lemma_quotient_order(d1 * c1, f1, d2 * c2, f2);
    }
}

/// The progress is the share of the scale that is done, rounded down, as long as the
/// product of total and scale stays below two to the power of fifty: it never says more
/// than is done, and at most one less.
#[verifier::spinoff_prover]
pub proof fn law_progress_accurate(done: nat, total: nat, scale: nat)
    requires
        done <= total,
        0 < total,
        0 < scale,
        total * scale <= 0x4_0000_0000_0000,
    ensures
        scaled_ratio(done, total, scale) * total <= scale * done,
        scale * done <= (scaled_ratio(done, total, scale) + 1) * total,
{
    assert(total <= 0x4_0000_0000_0000) by (nonlinear_arith)
        requires
            total * scale <= 0x4_0000_0000_0000,
            scale >= 1,
    ;
    lemma_whole(done);
    lemma_whole(total);
    let (a, t) = (done, total);
    let f = fine(a, t);
    let m = quotient_significand(a, t);
    let n = m * scale;
    let d = double_of(n);
    let r = scaled_ratio(done, total, scale);
    assert(coarse(a, t) == 1);
    assert(t * 1 == t);
    assert(d * 1 == d);
    if a == 0 {
        assert(0 * f == 0);
        lemma_rounded_at_most(0, t, 0);
        assert(n == 0) by (nonlinear_arith)
            requires
                n == m * scale,
                m == 0,
        ;
        lemma_double_bounds(0);
        let j = lemma_fine_power(a, t);
        lemma_pow2_pos(j);
        vstd::arithmetic::div_mod::lemma_div_basics(f as int);
        assert(r * t == 0) by (nonlinear_arith)
            requires
                r == 0,
        ;
        assert(scale * a == 0) by (nonlinear_arith)
            requires
                a == 0,
        ;
        assert((r + 1) * t >= 0) by (nonlinear_arith)
            requires
                r >= 0,
                t >= 0,
        ;
    } else {
        lemma_fine(a, t);
        lemma_significand_range(a, t);
        assert(f >= 0x10_0000_0000_0000) by (nonlinear_arith)
            requires
                a * f >= 0x10_0000_0000_0000 * t,
                a <= t,
                a > 0,
        ;
        lemma_rounded_bounds(a * f, t);
        lemma_coarse(n, 1);
        let c = coarse(n, 1);
        assert(1 * c == c);
        lemma_rounded_bounds(n, c);
        let k = rounded(n, c);
        assert(2 * k * c == 2 * d) by (nonlinear_arith)
            requires
                d == k * c,
        ;
        assert(c <= 2 * scale) by (nonlinear_arith)
            requires
                c == 1 || 0x10_0000_0000_0000 * c <= n,
                n == m * scale,
                m <= 0x20_0000_0000_0000,
                scale >= 1,
        ;
        assert(d <= n + scale && n <= d + scale);
        vstd::arithmetic::div_mod::lemma_fundamental_div_mod(d as int, f as int);
        assert(f * r <= d);
        assert(d < f * r + f);
        let x = t * scale;
        assert(2 * (f * (r * t)) <= 2 * (f * (a * scale)) + 3 * x) by {
            assert((f * r) * t <= d * t) by (nonlinear_arith)
                requires
                    f * r <= d,
            ;
            assert(d * t <= (n + scale) * t) by (nonlinear_arith)
                requires
                    d <= n + scale,
            ;
            assert((n + scale) * t == (m * t) * scale + x) by (nonlinear_arith)
                requires
                    n == m * scale,
                    x == t * scale,
            ;
            assert(2 * m * t == 2 * (m * t)) by (nonlinear_arith);
            assert((2 * (m * t)) * scale <= (2 * (a * f) + t) * scale) by (nonlinear_arith)
                requires
                    2 * (m * t) <= 2 * (a * f) + t,
            ;
            assert((2 * (a * f) + t) * scale == 2 * (f * (a * scale)) + x) by (nonlinear_arith)
                requires
                    x == t * scale,
            ;
            assert((2 * (m * t)) * scale == 2 * ((m * t) * scale)) by (nonlinear_arith);
            assert((f * r) * t == f * (r * t)) by (nonlinear_arith);
        }
        assert(2 * (f * ((r + 1) * t)) + 3 * x >= 2 * (f * (a * scale))) by {
            assert((f * (r + 1)) * t >= d * t) by (nonlinear_arith)
                requires
                    f * r + f >= d,
            ;
            assert((d + scale) * t >= n * t) by (nonlinear_arith)
                requires
                    n <= d + scale,
            ;
            assert((d + scale) * t == d * t + x) by (nonlinear_arith)
                requires
                    x == t * scale,
            ;
            assert(n * t == (m * t) * scale) by (nonlinear_arith)
                requires
                    n == m * scale,
            ;
            assert(2 * m * t == 2 * (m * t)) by (nonlinear_arith);
            assert((2 * (m * t) + t) * scale >= (2 * (a * f)) * scale) by (nonlinear_arith)
                requires
                    2 * (a * f) <= 2 * (m * t) + t,
            ;
            assert((2 * (m * t) + t) * scale == 2 * ((m * t) * scale) + x) by (nonlinear_arith)
                requires
                    x == t * scale,
            ;
            assert((2 * (a * f)) * scale == 2 * (f * (a * scale))) by (nonlinear_arith);
            assert((f * (r + 1)) * t == f * ((r + 1) * t)) by (nonlinear_arith);
        }
        assert(3 * x < 2 * f);
        let (p, q, e) = (r * t, (r + 1) * t, a * scale);
        assert(p < e + 1) by (nonlinear_arith)
            requires
                2 * (f * p) <= 2 * (f * e) + 3 * x,
                3 * x < 2 * f,
                f > 0,
        ;
        assert(e < q + 1) by (nonlinear_arith)
            requires
                2 * (f * q) + 3 * x >= 2 * (f * e),
                3 * x < 2 * f,
                f > 0,
        ;
        assert(scale * a == a * scale) by (nonlinear_arith);
    }
}

}
