//! Rounding to the 24 significant bits of a single-precision number, in whole
//! number arithmetic.

use vstd::arithmetic::div_mod::*;
use vstd::arithmetic::mul::*;
use vstd::arithmetic::power2::*;
use vstd::prelude::*;

verus! {

/// The number `num / den`; `den` is above zero and `num` is not below it.
pub struct Ratio {
    pub num: int,
    pub den: int,
}

/// The whole number nearest to `num / den`; of two equally near, the even one.
pub open spec fn nearest_even(num: int, den: int) -> int {
    let q = num / den;
    let r = num % den;
    if 2 * r < den || (2 * r == den && q % 2 == 0) {
        q
    } else {
        q + 1
    }
}

/// The whole number nearest to `num / den`; of two equally near, the greater.
pub open spec fn nearest_up(num: int, den: int) -> int {
    (2 * num + den) / (2 * den)
}

/// `x` divided by two to the power `e`.
pub open spec fn scaled(x: Ratio, e: int) -> Ratio {
    if e >= 0 {
        Ratio { num: x.num, den: x.den * pow2(e as nat) }
    } else {
        Ratio { num: x.num * pow2((-e) as nat), den: x.den }
    }
}

/// Whether `x` divided by two to the power `e` lies below `c`.
pub open spec fn below(x: Ratio, e: int, c: int) -> bool {
    scaled(x, e).num < c * scaled(x, e).den
}

/// Whether a number of 24 significant bits next to `x` counts in units of two
/// to the power `e`.
pub open spec fn fits(x: Ratio, e: int) -> bool {
    below(x, e, 0x100_0000) && !below(x, e, 0x80_0000)
}

/// The power of two in whose units the 24 significant bits of `x` count.
pub open spec fn unit(x: Ratio) -> int {
    choose|e: int| #[trigger] fits(x, e)
}

/// The number with 24 significant bits that is nearest to `x`; of two equally
/// near, the one with the even last bit. There is no limit on its size.
pub open spec fn single(x: Ratio) -> Ratio {
    if x.num == 0 {
        x
    } else {
        let s = scaled(x, unit(x));
        scaled(Ratio { num: nearest_even(s.num, s.den), den: 1 }, -unit(x))
    }
}

/// Ten times the single-precision form of `x`, again in single precision, and
/// then to the nearest whole number.
pub open spec fn tenths_of(x: Ratio) -> int {
    let near = single(x);
    let ten_times = single(Ratio { num: 10 * near.num, den: near.den });
    nearest_up(ten_times.num, ten_times.den)
}

/// Ten to the thirtieth.
pub open spec fn grain() -> int {
    1_000_000_000_000_000_000_000_000_000_000
}

proof fn lemma_below_step(x: Ratio, e: int, c: int)
    ensures
        below(x, e, 2 * c) == below(x, e + 1, c),
{
    if e >= 0 {
        lemma_pow2_unfold((e + 1) as nat);
        assert(x.den * (2 * pow2(e as nat)) * c == (2 * c) * (x.den * pow2(e as nat)))
            by (nonlinear_arith);
        assert(c * (x.den * pow2((e + 1) as nat)) == (x.den * pow2((e + 1) as nat)) * c)
            by (nonlinear_arith);
    } else if e == -1 {
        lemma2_to64();
        assert(x.den * pow2(0) == x.den);
        assert(x.num * pow2(1) == 2 * x.num);
        assert((2 * c) * x.den == 2 * (c * x.den)) by (nonlinear_arith);
    } else {
        lemma_pow2_unfold((-e) as nat);
        let p = pow2((-e - 1) as nat);
        assert(pow2((-e) as nat) == 2 * p);
        assert(x.num * (2 * p) == 2 * (x.num * p)) by (nonlinear_arith);
        assert((2 * c) * x.den == 2 * (c * x.den)) by (nonlinear_arith);
    }
}

proof fn lemma_den_positive(x: Ratio, e: int)
    requires
        x.den > 0,
        x.num >= 0,
    ensures
        scaled(x, e).den > 0,
        scaled(x, e).num >= 0,
{
    if e >= 0 {
        lemma_pow2_pos(e as nat);
        lemma_mul_strictly_positive(x.den, pow2(e as nat) as int);
    } else {
        lemma_pow2_pos((-e) as nat);
        lemma_mul_nonnegative(x.num, pow2((-e) as nat) as int);
    }
}

proof fn lemma_below_grows(x: Ratio, e: int, f: int)
    requires
        x.den > 0,
        x.num >= 0,
        e <= f,
        below(x, e, 0x100_0000),
    ensures
        below(x, f, 0x100_0000),
    decreases f - e,
{
    if e < f {
        lemma_den_positive(x, e);
        lemma_below_step(x, e, 0x100_0000);
        lemma_below_grows(x, e + 1, f);
    }
}

proof fn lemma_fits_once(x: Ratio, e: int, f: int)
    requires
        x.den > 0,
        x.num >= 0,
        fits(x, e),
        fits(x, f),
    ensures
        e == f,
{
    if e < f {
        lemma_below_grows(x, e, f - 1);
        lemma_below_step(x, f - 1, 0x80_0000);
    } else if f < e {
        lemma_below_grows(x, f, e - 1);
        lemma_below_step(x, e - 1, 0x80_0000);
    }
}

proof fn lemma_pow2_above(n: nat)
    ensures
        n < pow2(n),
    decreases n,
{
    if n > 0 {
        lemma_pow2_above((n - 1) as nat);
        lemma_pow2_unfold(n);
    } else {
        lemma2_to64();
    }
}

proof fn lemma_search_unit(x: Ratio, e: int) -> (f: int)
    requires
        x.den > 0,
        x.num > 0,
        below(x, e, 0x100_0000),
        e >= -(x.den + 23),
    ensures
        fits(x, f),
    decreases e + x.den + 23,
{
    if !below(x, e, 0x80_0000) {
        e
    } else {
        if e == -(x.den + 23) {
            let k = (x.den + 23) as nat;
            lemma_pow2_adds(x.den as nat, 23);
            lemma_pow2_above(x.den as nat);
            lemma2_to64();
            let p = pow2(k) as int;
            let d = x.den;
            assert(p == pow2(d as nat) * 0x80_0000);
            assert(x.num * p >= p) by (nonlinear_arith)
                requires
                    x.num >= 1,
                    p >= 0,
            ;
            assert(false);
        }
        lemma_below_step(x, e - 1, 0x80_0000);
        lemma_search_unit(x, e - 1)
    }
}

/// Every number above zero has exactly one unit.
proof fn lemma_unit(x: Ratio)
    requires
        x.den > 0,
        x.num > 0,
    ensures
        fits(x, unit(x)),
{
    let k = x.num as nat;
    lemma_pow2_above(k);
    let p = pow2(k) as int;
    assert(x.den * p >= p) by (nonlinear_arith)
        requires
            x.den >= 1,
            p >= 0,
    ;
    let f = lemma_search_unit(x, x.num);
    assert(fits(x, f));
}

proof fn lemma_unit_is(x: Ratio, e: int)
    requires
        x.den > 0,
        x.num > 0,
        fits(x, e),
    ensures
        unit(x) == e,
{
    lemma_unit(x);
    lemma_fits_once(x, unit(x), e);
}

proof fn lemma_nearest_even_bounds(num: int, den: int, lo: int, hi: int)
    requires
        den > 0,
        lo * den <= num < hi * den,
    ensures
        lo <= nearest_even(num, den) <= hi,
{
    lemma_fundamental_div_mod(num, den);
    lemma_mod_bound(num, den);
    let q = num / den;
    let r = num % den;
    assert(lo <= q < hi) by (nonlinear_arith)
        requires
            den > 0,
            lo * den <= num < hi * den,
            num == den * q + r,
            0 <= r < den,
    ;
}

/// Rounding keeps a number at or above a power of two there.
proof fn lemma_single_at_least(x: Ratio, j: nat)
    requires
        x.den > 0,
        x.num >= 0,
        x.num >= pow2(j) * x.den,
        j < 23,
    ensures
        single(x).den > 0,
        single(x).num >= pow2(j) * single(x).den,
{
    lemma_pow2_pos(j);
    assert(x.num > 0) by {
        lemma_mul_strictly_positive(pow2(j) as int, x.den);
    }
    lemma_unit(x);
    let e = unit(x);
    let m = (23 - j) as nat;
    lemma_pow2_adds(j, m);
    lemma2_to64();
    let pj = pow2(j) as int;
    let pm = pow2(m) as int;
    lemma_pow2_pos(m);
    assert(pj * pm == 0x80_0000);
    assert(x.num * pm >= 0x80_0000 * x.den) by (nonlinear_arith)
        requires
            x.num >= pj * x.den,
            pj * pm == 0x80_0000,
            pm > 0,
    ;
    assert(!below(x, -(m as int), 0x80_0000));
    lemma_below_step(x, -(m as int) - 1, 0x80_0000);
    if e < -(m as int) {
        lemma_below_grows(x, e, -(m as int) - 1);
    }
    let s = scaled(x, e);
    lemma_den_positive(x, e);
    lemma_nearest_even_bounds(s.num, s.den, 0x80_0000, 0x100_0000);
    let q = nearest_even(s.num, s.den);
    if e >= 0 {
        if e == 0 {
            assert(single(x).den == 1 * pow2(0));
            assert(q >= pj * 1) by (nonlinear_arith)
                requires
                    q >= 0x80_0000,
                    pj * pm == 0x80_0000,
                    pm >= 1,
                    pj > 0,
            ;
        } else {
            let p = pow2(e as nat) as int;
            lemma_pow2_pos(e as nat);
            assert(single(x).num == q * p);
            assert(single(x).den == 1);
            assert(q * p >= pj * 1) by (nonlinear_arith)
                requires
                    q >= 0x80_0000,
                    p >= 1,
                    pj * pm == 0x80_0000,
                    pm >= 1,
                    pj > 0,
            ;
        }
    } else {
        let k = (-e) as nat;
        let p = pow2(k) as int;
        lemma_pow2_pos(k);
        assert(single(x).den == 1 * p);
        if k < m {
            lemma_pow2_strictly_increases(k, m);
        }
        assert(p <= pm);
        assert(q >= pj * (1 * p)) by (nonlinear_arith)
            requires
                q >= 0x80_0000,
                p <= pm,
                pj * pm == 0x80_0000,
                pj > 0,
        ;
    }
}

/// Rounding keeps a number below a negative power of two at or below it.
proof fn lemma_single_at_most(x: Ratio, j: nat)
    requires
        x.den > 0,
        x.num >= 0,
        x.num * pow2(j) < x.den,
        0 < j < 30,
    ensures
        single(x).den > 0,
        single(x).num >= 0,
        single(x).num * pow2(j) <= single(x).den,
{
    lemma_pow2_pos(j);
    if x.num > 0 {
        lemma_unit(x);
        let e = unit(x);
        let m = (24 + j) as nat;
        lemma_pow2_adds(24, j);
        lemma2_to64();
        let pj = pow2(j) as int;
        let pm = pow2(m) as int;
        assert(pm == 0x100_0000 * pj);
        assert(x.num * pm < 0x100_0000 * x.den) by (nonlinear_arith)
            requires
                x.num * pj < x.den,
                pm == 0x100_0000 * pj,
        ;
        assert(below(x, -(m as int), 0x100_0000));
        if e > -(m as int) {
            lemma_below_grows(x, -(m as int), e - 1);
            lemma_below_step(x, e - 1, 0x80_0000);
        }
        let s = scaled(x, e);
        lemma_den_positive(x, e);
        lemma_nearest_even_bounds(s.num, s.den, 0x80_0000, 0x100_0000);
        let q = nearest_even(s.num, s.den);
        let k = (-e) as nat;
        let p = pow2(k) as int;
        lemma_pow2_pos(k);
        assert(single(x).den == 1 * p);
        if m < k {
            lemma_pow2_strictly_increases(m, k);
        }
        assert(pm <= p);
        assert(q * pj <= 1 * p) by (nonlinear_arith)
            requires
                0 <= q <= 0x100_0000,
                pm <= p,
                pm == 0x100_0000 * pj,
                pj > 0,
        ;
    } else {
        assert(x.num * pow2(j) == 0) by (nonlinear_arith)
            requires
                x.num == 0,
        ;
    }
}

/// A number of 16 or more comes to at least 128 tenths.
pub proof fn lemma_large_tenths(x: Ratio)
    requires
        x.den > 0,
        x.num >= 16 * x.den,
    ensures
        tenths_of(x) >= 128,
{
    lemma2_to64();
    lemma_single_at_least(x, 4);
    let near = single(x);
    let y = Ratio { num: 10 * near.num, den: near.den };
    assert(y.num >= 128 * y.den);
    lemma_single_at_least(y, 7);
    let z = single(y);
    lemma_fundamental_div_mod(2 * z.num + z.den, 2 * z.den);
    lemma_mod_bound(2 * z.num + z.den, 2 * z.den);
    let t = tenths_of(x);
    let r = (2 * z.num + z.den) % (2 * z.den);
    assert(t >= 128) by (nonlinear_arith)
        requires
            z.den > 0,
            z.num >= 128 * z.den,
            2 * z.num + z.den == (2 * z.den) * t + r,
            0 <= r < 2 * z.den,
    ;
}

/// A number below one sixty-fourth comes to no tenths.
pub proof fn lemma_small_tenths(x: Ratio)
    requires
        x.den > 0,
        x.num >= 0,
        64 * x.num < x.den,
    ensures
        tenths_of(x) == 0,
{
    lemma2_to64();
    lemma_single_at_most(x, 6);
    let near = single(x);
    let y = Ratio { num: 10 * near.num, den: near.den };
    assert(y.num * 4 < y.den);
    lemma_single_at_most(y, 2);
    let z = single(y);
    lemma_basic_div(2 * z.num + z.den, 2 * z.den);
}

proof fn lemma_nearest_even_scales(c: int, num: int, den: int)
    requires
        c > 0,
        den > 0,
        num >= 0,
    ensures
        nearest_even(c * num, c * den) == nearest_even(num, den),
{
    lemma_div_multiples_vanish_quotient(c, num, den);
    lemma_truncate_middle(num, c, den);
    let r = num % den;
    assert(2 * (c * r) < c * den <==> 2 * r < den) by (nonlinear_arith)
        requires
            c > 0,
    ;
    assert(2 * (c * r) == c * den <==> 2 * r == den) by (nonlinear_arith)
        requires
            c > 0,
    ;
}

/// The single-precision form of `x`, from the whole grains in it (`n`), what
/// is left over (`rho`), and the number `g` of grains to a unit.
proof fn lemma_first_rounding(x: Ratio, n: int, rho: int, g: int, m: nat)
    requires
        x.den > 0,
        x.num > 0,
        x.num * grain() == n * x.den + rho,
        0 <= rho < x.den,
        m > 0,
        g > 0,
        g % 2 == 0,
        g * pow2(m) == grain(),
        0x80_0000 * g <= n < 0x100_0000 * g,
    ensures
        unit(x) == -(m as int),
        nearest_even(x.num * pow2(m), x.den) == ({
            let q = n / g;
            let r = n % g;
            if 2 * r > g || (2 * r == g && (rho > 0 || q % 2 == 1)) {
                q + 1
            } else {
                q
            }
        }),
{
    let a = x.num * pow2(m);
    let b = x.den;
    assert(a * g == n * b + rho) by (nonlinear_arith)
        requires
            a == x.num * pow2(m),
            g * pow2(m) == grain(),
            x.num * grain() == n * b + rho,
    ;
    assert(a >= 0x80_0000 * b) by (nonlinear_arith)
        requires
            a * g == n * b + rho,
            0x80_0000 * g <= n,
            rho >= 0,
            b > 0,
            g > 0,
    ;
    assert(a < 0x100_0000 * b) by (nonlinear_arith)
        requires
            a * g == n * b + rho,
            n < 0x100_0000 * g,
            rho < b,
            b > 0,
            g > 0,
    ;
    assert(fits(x, -(m as int)));
    lemma_unit_is(x, -(m as int));
    let q = n / g;
    let r = n % g;
    lemma_fundamental_div_mod(n, g);
    lemma_mod_bound(n, g);
    let rest = a - q * b;
    assert(rest * g == r * b + rho) by (nonlinear_arith)
        requires
            rest == a - q * b,
            a * g == n * b + rho,
            n == g * q + r,
    ;
    assert(0 <= rest < b) by (nonlinear_arith)
        requires
            rest * g == r * b + rho,
            0 <= r < g,
            0 <= rho < b,
            g > 0,
            b > 0,
    ;
    lemma_fundamental_div_mod_converse(a, b, q, rest);
    assert(a / b == q && a % b == rest);
    assert(2 * r > g ==> 2 * rest > b) by (nonlinear_arith)
        requires
            rest * g == r * b + rho,
            rho >= 0,
            b > 0,
            g > 0,
    ;
    let h = g / 2;
    assert(2 * r < g ==> 2 * rest < b) by (nonlinear_arith)
        requires
            rest * g == r * b + rho,
            g == 2 * h,
            rho < b,
            b > 0,
            g > 0,
    ;
    assert(2 * r == g && rho > 0 ==> 2 * rest > b) by (nonlinear_arith)
        requires
            rest * g == r * b + rho,
            b > 0,
            g > 0,
    ;
    assert(2 * r == g && rho == 0 ==> 2 * rest == b) by (nonlinear_arith)
        requires
            rest * g == r * b + rho,
            b > 0,
            g > 0,
    ;
    assert(q >= 0);
}

/// Rounding moves a number by no more than its 2^24th part.
proof fn lemma_single_near(x: Ratio)
    requires
        x.den > 0,
        x.num > 0,
    ensures
        ({
            let z = single(x);
            let off = z.num * x.den - x.num * z.den;
            z.den > 0 && -(x.num * z.den) <= off * 0x100_0000 <= x.num * z.den
        }),
{
    let e = unit(x);
    let s = scaled(x, e);
    let q = nearest_even(s.num, s.den);
    let z = single(x);
    lemma_unit(x);
    lemma_den_positive(x, e);
    lemma_fundamental_div_mod(s.num, s.den);
    lemma_mod_bound(s.num, s.den);
    let d = s.num / s.den;
    let r = s.num % s.den;
    assert(-(s.num) <= (q * s.den - s.num) * 0x100_0000 <= s.num) by (nonlinear_arith)
        requires
            s.num == s.den * d + r,
            0 <= r < s.den,
            (q == d && 2 * r <= s.den) || (q == d + 1 && 2 * r >= s.den),
            s.num >= 0x80_0000 * s.den,
            s.den > 0,
    ;
    lemma2_to64();
    if e > 0 {
        let p = pow2(e as nat) as int;
        assert(z.num == q * p && z.den == 1 && s.den == x.den * p);
        assert((q * p) * x.den == q * (x.den * p)) by (nonlinear_arith);
    } else if e < 0 {
        lemma_pow2_pos((-e) as nat);
        assert(z.num == q && z.den == pow2((-e) as nat));
    } else {
        assert(z.num == q && z.den == 1);
        assert(s.den == x.den) by (nonlinear_arith)
            requires
                s.den == x.den * pow2(0),
                pow2(0) == 1,
        ;
    }
    assert(z.num * x.den == q * s.den);
    assert(x.num * z.den == s.num);
}

/// A number of whole tenths comes to just those tenths.
pub proof fn whole_tenths_are_exact(x: Ratio, t: int)
    requires
        x.den > 0,
        10 * x.num == t * x.den,
        0 <= t <= 80,
    ensures
        tenths_of(x) == t,
{
    if t == 0 {
        lemma_small_tenths(x);
        return;
    }
    let xn = x.num;
    let xd = x.den;
    assert(xn > 0) by (nonlinear_arith)
        requires
            10 * xn == t * xd,
            t > 0,
            xd > 0,
    ;
    let a = single(x);
    lemma_single_near(x);
    let an = a.num;
    let ad = a.den;
    let c: int = 0x100_0000;
    assert(-(t * ad) <= (10 * an - t * ad) * c <= t * ad) by (nonlinear_arith)
        requires
            -(xn * ad) <= (an * xd - xn * ad) * c <= xn * ad,
            10 * xn == t * xd,
            xd > 0,
            c > 0,
    ;
    let y = Ratio { num: 10 * an, den: ad };
    assert(10 * an > 0 && 10 * an <= 2 * (t * ad)) by (nonlinear_arith)
        requires
            -(t * ad) <= (10 * an - t * ad) * c <= t * ad,
            t > 0,
            ad > 0,
            c == 0x100_0000,
    ;
    lemma_single_near(y);
    let z = single(y);
    let zn = z.num;
    let zd = z.den;
    let u = 10 * an;
    let p = (zn * ad - u * zd) * c;
    let r = (u - t * ad) * c;
    let v = (zn - t * zd) * c;
    assert((zn - t * zd) * ad == (zn * ad - u * zd) + (u - t * ad) * zd) by (nonlinear_arith);
    assert(v * ad == ((zn - t * zd) * ad) * c) by (nonlinear_arith)
        requires
            v == (zn - t * zd) * c,
    ;
    lemma_mul_is_distributive_add_other_way(c, zn * ad - u * zd, (u - t * ad) * zd);
    assert(((u - t * ad) * zd) * c == r * zd) by (nonlinear_arith)
        requires
            r == (u - t * ad) * c,
    ;
    assert(-((t * ad) * zd) <= r * zd <= (t * ad) * zd) by (nonlinear_arith)
        requires
            -(t * ad) <= r <= t * ad,
            zd > 0,
    ;
    assert(u * zd <= 2 * ((t * ad) * zd)) by (nonlinear_arith)
        requires
            u <= 2 * (t * ad),
            zd > 0,
    ;
    assert(-(3 * (t * zd)) <= v <= 3 * (t * zd)) by (nonlinear_arith)
        requires
            -(3 * ((t * ad) * zd)) <= v * ad <= 3 * ((t * ad) * zd),
            ad > 0,
    ;
    assert(2 * zn + zd >= (2 * zd) * t && 2 * zn + zd < (2 * zd) * t + 2 * zd) by (nonlinear_arith)
        requires
            -(3 * (t * zd)) <= (zn - t * zd) * c <= 3 * (t * zd),
            t <= 80,
            zd > 0,
            c == 0x100_0000,
    ;
    lemma_fundamental_div_mod_converse(2 * zn + zd, 2 * zd, t, 2 * zn + zd - (2 * zd) * t);
}

/// Ten times `q` units, rounded to single precision and then to a whole
/// number.
proof fn lemma_second_rounding(q: int, m: nat, k: nat)
    requires
        0x80_0000 <= q <= 0x100_0000,
        20 <= m,
        k == 3 || k == 4,
        k == 3 <==> 10 * q < 0x800_0000,
    ensures
        ({
            let z = single(Ratio { num: 10 * q, den: pow2(m) as int });
            z.num == nearest_even(10 * q, pow2(k) as int) && z.den == pow2((m - k) as nat)
        }),
{
    let y = Ratio { num: 10 * q, den: pow2(m) as int };
    let w = (m - k) as nat;
    lemma_pow2_pos(m);
    lemma_pow2_pos(w);
    lemma_pow2_adds(w, k);
    lemma2_to64();
    let pm = pow2(m) as int;
    let pw = pow2(w) as int;
    let pk = pow2(k) as int;
    assert(pm == pw * pk);
    assert(0x80_0000 * pk <= 10 * q < 0x100_0000 * pk);
    assert(0x80_0000 * pm <= (10 * q) * pw) by (nonlinear_arith)
        requires
            0x80_0000 * pk <= 10 * q,
            pm == pw * pk,
            pw > 0,
    ;
    assert((10 * q) * pw < 0x100_0000 * pm) by (nonlinear_arith)
        requires
            10 * q < 0x100_0000 * pk,
            pm == pw * pk,
            pw > 0,
    ;
    assert(fits(y, -(w as int)));
    lemma_unit_is(y, -(w as int));
    lemma_nearest_even_scales(pw, 10 * q, pk);
    assert((10 * q) * pw == pw * (10 * q)) by (nonlinear_arith);
}

/// Rounds a number to tenths, from the whole grains in it and whether
/// anything is left over.
pub(crate) fn round_tenths(
    n: u128,
    left_over: bool,
    Ghost(x): Ghost<Ratio>,
    Ghost(rho): Ghost<int>,
) -> (t: u32)
    requires
        x.den > 0,
        x.num >= 0,
        x.num * grain() == n * x.den + rho,
        0 <= rho < x.den,
        left_over <==> rho > 0,
        n < 16 * grain(),
    ensures
        t == tenths_of(x),
        t <= 0x1000_0000,
{
    // 5^30 * 2 grains make a unit of 2^-29.
    let mut g: u128 = 1_862_645_149_230_957_031_250;
    let mut p: u64 = 0x2000_0000;
    let ghost mut m: nat = 29;
    proof {
        lemma2_to64();
    }
    if n < 0x80_0000 * g {
        proof {
            assert(64 * x.num < x.den) by (nonlinear_arith)
                requires
                    x.num * grain() == n * x.den + rho,
                    rho < x.den,
                    x.den > 0,
                    64 * (n + 1) <= grain(),
                    grain() > 0,
            ;
            lemma_small_tenths(x);
        }
        return 0;
    }
    while n >= 0x100_0000 * g
        invariant
            n < 16 * grain(),
            0x80_0000 * g <= n,
            g > 0,
            g % 2 == 0,
            p == pow2(m),
            g * p == grain(),
            20 <= m <= 29,
            0x10_0000 <= p <= 0x2000_0000,
            g <= grain(),
        decreases m,
    {
        proof {
            lemma2_to64();
            assert(m > 20) by {
                if m == 20 {
                    assert(n >= 16 * grain()) by (nonlinear_arith)
                        requires
                            n >= 0x100_0000 * g,
                            g * p == grain(),
                            p == 0x10_0000,
                    ;
                }
            }
            lemma_pow2_unfold(m);
            let half = pow2((m - 1) as nat) as int;
            assert(p == 2 * half);
            assert((2 * g) * half == grain()) by (nonlinear_arith)
                requires
                    g * p == grain(),
                    p == 2 * half,
            ;
            if m - 1 > 20 {
                lemma_pow2_strictly_increases(20, (m - 1) as nat);
            }
            assert(2 * g <= grain()) by (nonlinear_arith)
                requires
                    (2 * g) * half == grain(),
                    half >= 1,
                    g > 0,
            ;
            m = (m - 1) as nat;
        }
        g = g * 2;
        p = p / 2;
    }
    let q0: u128 = n / g;
    let r: u128 = n % g;
    let h: u128 = g / 2;
    proof {
        assert(x.num > 0) by (nonlinear_arith)
            requires
                x.num * grain() == n * x.den + rho,
                x.num >= 0,
                n >= 0x80_0000 * g,
                g > 0,
                x.den > 0,
                rho >= 0,
        ;
        lemma_first_rounding(x, n as int, rho, g as int, m);
        lemma_fundamental_div_mod(n as int, g as int);
        lemma_mod_bound(n as int, g as int);
        assert(0x80_0000 <= q0 < 0x100_0000) by (nonlinear_arith)
            requires
                n == g * q0 + r,
                0 <= r < g,
                0x80_0000 * g <= n < 0x100_0000 * g,
        ;
    }
    let q: u64 = if r > h || (r == h && (left_over || q0 % 2 == 1)) {
        q0 as u64 + 1
    } else {
        q0 as u64
    };
    let ten: u64 = 10 * q;
    let step: u64 = if ten < 0x800_0000 {
        8
    } else {
        16
    };
    let s0: u64 = ten / step;
    let sr: u64 = ten % step;
    let half: u64 = step / 2;
    let s: u64 = if sr > half || (sr == half && s0 % 2 == 1) {
        s0 + 1
    } else {
        s0
    };
    let d: u64 = p / step;
    proof {
        let k: nat = if step == 8 {
            3
        } else {
            4
        };
        lemma2_to64();
        assert(pow2(k) == step);
        lemma_second_rounding(q as int, m, k);
        lemma_pow2_adds((m - k) as nat, k);
        let w = pow2((m - k) as nat) as int;
        assert(p == w * step);
        lemma_div_multiples_vanish(w, step as int);
        assert(step * w == w * step) by (nonlinear_arith);
        assert(d == w);
        lemma_pow2_pos((m - k) as nat);
        assert(single(x).num == q);
        assert(single(x).den == 1 * pow2(m));
        assert(tenths_of(x) == nearest_up(s as int, d as int));
        assert((2 * s + d) / (2 * d) <= 2 * s + d) by {
            lemma_div_is_ordered_by_denominator(2 * s + d, 1, 2 * d);
            lemma_div_basics(2 * s + d);
        }
    }
    ((2 * s + d) / (2 * d)) as u32
}

/// The tenths of a number are the nearest whole tenths, or nearest but for the
/// little that two roundings to 24 bits can move it.
pub proof fn tenths_are_near(x: Ratio)
    requires
        x.den > 0,
        0 <= x.num <= 16 * x.den,
    ensures
        ({
            let off = 2 * (tenths_of(x) * x.den - 10 * x.num);
            -16_778_176 * x.den <= 16_777_216 * off <= 16_778_176 * x.den
        }),
{
    if x.num == 0 {
        lemma_small_tenths(x);
        lemma_mul_basics(x.den);
        return;
    }
    let xn = x.num;
    let xd = x.den;
    let c: int = 0x100_0000;
    let a = single(x);
    lemma_single_near(x);
    let an = a.num;
    let ad = a.den;
    let first = an * xd - xn * ad;
    assert(0 < xn * ad) by (nonlinear_arith)
        requires
            xn > 0,
            ad > 0,
    ;
    assert(0 < an * xd <= 2 * (xn * ad));
    assert(an > 0) by (nonlinear_arith)
        requires
            0 < an * xd,
            xd > 0,
    ;
    let y = Ratio { num: 10 * an, den: ad };
    lemma_single_near(y);
    let z = single(y);
    let zn = z.num;
    let zd = z.den;
    let second = zn * ad - (10 * an) * zd;
    let w = zn * xd - (10 * xn) * zd;
    assert(w * ad == second * xd + (10 * first) * zd) by (nonlinear_arith)
        requires
            w == zn * xd - (10 * xn) * zd,
            second == zn * ad - (10 * an) * zd,
            first == an * xd - xn * ad,
    ;
    let m = xn * ad;
    let b = (10 * an) * zd;
    assert(-(b * xd) <= (second * c) * xd <= b * xd) by (nonlinear_arith)
        requires
            -b <= second * c <= b,
            xd > 0,
    ;
    assert(b * xd <= 20 * (m * zd)) by (nonlinear_arith)
        requires
            b == (10 * an) * zd,
            an * xd <= 2 * m,
            zd > 0,
    ;
    assert(-(10 * (m * zd)) <= ((10 * first) * c) * zd <= 10 * (m * zd)) by (nonlinear_arith)
        requires
            -m <= first * c <= m,
            zd > 0,
    ;
    assert((w * ad) * c == (second * c) * xd + ((10 * first) * c) * zd) by (nonlinear_arith)
        requires
            w * ad == second * xd + (10 * first) * zd,
    ;
    let wc = w * c;
    assert((w * ad) * c == wc * ad) by (nonlinear_arith)
        requires
            wc == w * c,
    ;
    let k = xn * zd;
    assert(m * zd == k * ad) by (nonlinear_arith)
        requires
            m == xn * ad,
            k == xn * zd,
    ;
    assert(-(30 * k) <= wc <= 30 * k) by (nonlinear_arith)
        requires
            -(30 * (k * ad)) <= wc * ad <= 30 * (k * ad),
            ad > 0,
    ;
    let t = tenths_of(x);
    lemma_fundamental_div_mod(2 * zn + zd, 2 * zd);
    lemma_mod_bound(2 * zn + zd, 2 * zd);
    let r = (2 * zn + zd) % (2 * zd);
    let step = 2 * (t * zd - zn);
    assert((2 * zd) * t == 2 * (t * zd)) by (nonlinear_arith);
    assert(-zd <= step <= zd);
    let off = 2 * (t * xd - 10 * xn);
    assert(off * zd == step * xd + 2 * w) by (nonlinear_arith)
        requires
            off == 2 * (t * xd - 10 * xn),
            step == 2 * (t * zd - zn),
            w == zn * xd - (10 * xn) * zd,
    ;
    assert(-(zd * xd) <= step * xd <= zd * xd) by (nonlinear_arith)
        requires
            -zd <= step <= zd,
            xd > 0,
    ;
    assert(k <= 16 * (zd * xd)) by (nonlinear_arith)
        requires
            k == xn * zd,
            xn <= 16 * xd,
            zd > 0,
    ;
    let oc = c * off;
    assert(oc * zd == c * (off * zd)) by (nonlinear_arith)
        requires
            oc == c * off,
    ;
    assert(-((c + 960) * (zd * xd)) <= oc * zd <= (c + 960) * (zd * xd));
    let bound = (c + 960) * xd;
    assert((c + 960) * (zd * xd) == bound * zd) by (nonlinear_arith)
        requires
            bound == (c + 960) * xd,
    ;
    assert(-bound <= oc <= bound) by (nonlinear_arith)
        requires
            -(bound * zd) <= oc * zd <= bound * zd,
            zd > 0,
    ;
    assert(oc == 16_777_216 * off);
    assert(bound == 16_778_176 * xd);
}

} // verus!
