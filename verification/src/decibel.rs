//! Gains in decibels, read from text and rounded to tenths as single-precision
//! arithmetic rounds them.

use vstd::arithmetic::div_mod::*;
use vstd::arithmetic::mul::*;
use vstd::arithmetic::power::*;
use vstd::prelude::*;

use crate::number;
use crate::single;
use crate::single::Ratio;
use crate::text;

verus! {

/// The index of the first `a` or `b` in `s`; the length of `s` where there is
/// none.
pub open spec fn first_of(s: Seq<char>, a: char, b: char) -> int
    decreases s.len(),
{
    if s.len() == 0 || s[0] == a || s[0] == b {
        0
    } else {
        1 + first_of(s.drop_first(), a, b)
    }
}

/// `v` times ten to the power `e`.
pub open spec fn power_of_ten(v: nat, e: int) -> Ratio {
    if e >= 0 {
        Ratio { num: v * pow(10, e as nat), den: 1 }
    } else {
        Ratio { num: v as int, den: pow(10, (-e) as nat) }
    }
}

/// The part before the exponent mark.
pub open spec fn mantissa(s: Seq<char>) -> Seq<char> {
    s.take(first_of(s, 'e', 'E'))
}

/// The power of ten after the exponent mark: zero where there is no mark, and
/// none where the mark stands before anything but a whole number.
pub open spec fn exponent(s: Seq<char>) -> Option<int> {
    let mark = first_of(s, 'e', 'E');
    if mark < s.len() {
        number::signed(s.skip(mark + 1))
    } else {
        Some(0)
    }
}

/// The digits after the decimal point.
pub open spec fn fraction(m: Seq<char>) -> Seq<char> {
    let point = first_of(m, '.', '.');
    if point < m.len() {
        m.skip(point + 1)
    } else {
        Seq::empty()
    }
}

/// The digits of a number, without its decimal point.
pub open spec fn significand(m: Seq<char>) -> Seq<char> {
    m.take(first_of(m, '.', '.')) + fraction(m)
}

/// The number written by digits, at most one decimal point among or around
/// them, and an optional exponent.
pub open spec fn magnitude(s: Seq<char>) -> Option<Ratio> {
    let m = mantissa(s);
    match (number::natural(significand(m)), exponent(s)) {
        (Some(v), Some(e)) => Some(power_of_ten(v, e - fraction(m).len())),
        _ => None,
    }
}

/// What a text says of a gain.
#[derive(Clone, Copy, PartialEq, Eq, Structural, Debug)]
pub enum Reading {
    /// So many tenths of a decibel.
    Tenths(i16),
    /// Not within -8.0 to +6.0 dB.
    OutOfRange,
}

/// A number of tenths, if it lies within the range of an equalizer band.
pub open spec fn within_range(t: int) -> Reading {
    if -80 <= t <= 60 {
        Reading::Tenths(t as i16)
    } else {
        Reading::OutOfRange
    }
}

/// `s` without a sign before it.
pub open spec fn unsigned_part(s: Seq<char>) -> Seq<char> {
    if s.len() > 0 && (s[0] == '-' || s[0] == '+') {
        s.drop_first()
    } else {
        s
    }
}

/// The gain that a text gives: a decimal number, rounded to tenths of a
/// decibel in single precision; or `nan`, `inf` or `infinity`, which lie in no
/// range. None where the text is none of these.
pub open spec fn gain(s: Seq<char>) -> Option<Reading> {
    let body = unsigned_part(s);
    let word = text::lowered(body);
    if word == "nan"@ || word == "inf"@ || word == "infinity"@ {
        Some(Reading::OutOfRange)
    } else {
        match magnitude(body) {
            Some(x) => Some(
                within_range(
                    if s.len() > 0 && s[0] == '-' {
                        -single::tenths_of(x)
                    } else {
                        single::tenths_of(x)
                    },
                ),
            ),
            None => None,
        }
    }
}

/// Finds the first of two characters.
pub fn find(chars: &Vec<char>, a: char, b: char) -> (at: usize)
    ensures
        at == first_of(chars@, a, b),
        at <= chars@.len(),
{
    let mut i: usize = 0;
    proof {
        assert(chars@.skip(0) =~= chars@);
    }
    while i < chars.len() && chars[i] != a && chars[i] != b
        invariant
            i <= chars@.len(),
            first_of(chars@, a, b) == i + first_of(chars@.skip(i as int), a, b),
        decreases chars@.len() - i,
    {
        proof {
            assert(chars@.skip(i as int).drop_first() =~= chars@.skip(i + 1));
        }
        i += 1;
    }
    i
}

/// Digits write the sum of what their first `k` and the rest write.
proof fn lemma_value_splits(s: Seq<char>, k: int)
    requires
        number::all_digits(s),
        0 <= k <= s.len(),
    ensures
        number::value_of(s) == number::value_of(s.take(k)) * pow(10, (s.len() - k) as nat)
            + number::value_of(s.skip(k)),
        number::value_of(s.skip(k)) < pow(10, (s.len() - k) as nat),
    decreases s.len() - k,
{
    reveal(pow);
    if k == s.len() {
        assert(s.take(k) =~= s);
        assert(s.skip(k).len() == 0);
        assert(pow(10, 0) == 1);
    } else {
        let rest = (s.len() - k) as nat;
        assert(s.drop_last().take(k) =~= s.take(k));
        assert(s.drop_last().skip(k) =~= s.skip(k).drop_last());
        assert(s.skip(k).last() == s.last());
        assert(number::is_digit(s.last()));
        lemma_value_splits(s.drop_last(), k);
        let p = pow(10, (rest - 1) as nat);
        let v = number::value_of(s.take(k)) as int;
        assert(pow(10, rest) == 10 * p);
        assert(v * (10 * p) == 10 * (v * p)) by (nonlinear_arith);
    }
}

/// Digits write zero exactly where each of them is zero.
proof fn lemma_value_zero(s: Seq<char>)
    requires
        number::all_digits(s),
    ensures
        number::value_of(s) == 0 <==> (forall|i: int| 0 <= i < s.len() ==> #[trigger] s[i] == '0'),
    decreases s.len(),
{
    if s.len() > 0 {
        lemma_value_zero(s.drop_last());
        assert(number::is_digit(s.last()));
        assert(s.last() == s[s.len() - 1]);
        if number::value_of(s.drop_last()) == 0 && s.last() == '0' {
            assert forall|i: int| 0 <= i < s.len() implies #[trigger] s[i] == '0' by {
                if i < s.len() - 1 {
                    assert(s.drop_last()[i] == '0');
                }
            }
        } else if number::value_of(s.drop_last()) != 0 {
            let i = choose|i: int|
                0 <= i < s.drop_last().len() && #[trigger] s.drop_last()[i] != '0';
            assert(s[i] != '0');
        }
    }
}

/// How many grains a number holds, as far as it matters here.
enum Grains {
    /// The number is 16 or more.
    Many,
    /// So many whole grains, whether anything is left over, and how much.
    Few(u128, bool, Ghost<int>),
}

/// What `Grains` says of a number.
spec fn grains_of(g: Grains, x: Ratio) -> bool {
    match g {
        Grains::Many => x.num >= 16 * x.den,
        Grains::Few(n, left_over, rho) => n < 16 * single::grain() && 0 <= rho@ < x.den && x.num
            * single::grain() == n * x.den + rho@ && (left_over <==> rho@ > 0),
    }
}

proof fn lemma_grain()
    ensures
        pow(10, 30) == single::grain(),
{
    lemma_pow_adds(10, 15, 15);
    lemma_pow_adds(10, 7, 8);
    reveal_with_fuel(pow, 9);
    assert(pow(10, 7) == 10_000_000);
    assert(pow(10, 8) == 100_000_000);
    let p = pow(10, 15);
    assert(pow(10, 7) * pow(10, 8) == 1_000_000_000_000_000) by (nonlinear_arith)
        requires
            pow(10, 7) == 10_000_000,
            pow(10, 8) == 100_000_000,
    ;
    assert(p * p == single::grain()) by (nonlinear_arith)
        requires
            p == 1_000_000_000_000_000,
    ;
}

/// The number whose grains are `n`, exactly.
proof fn lemma_exact_grains(v: nat, e: int, n: int)
    requires
        e + 30 >= 0,
        n == v * pow(10, (e + 30) as nat),
    ensures
        power_of_ten(v, e).den > 0,
        power_of_ten(v, e).num * single::grain() == n * power_of_ten(v, e).den,
{
    let x = power_of_ten(v, e);
    lemma_grain();
    if e >= 0 {
        let p = pow(10, e as nat);
        lemma_pow_adds(10, e as nat, 30);
        assert((v * p) * single::grain() == v * (p * single::grain())) by (nonlinear_arith);
    } else {
        let p = pow(10, (e + 30) as nat);
        let d = pow(10, (-e) as nat);
        lemma_pow_positive(10, (-e) as nat);
        lemma_pow_adds(10, (e + 30) as nat, (-e) as nat);
        assert(v * (p * d) == (v * p) * d) by (nonlinear_arith);
    }
}

/// The number whose whole grains are `n`, with `rest` cut off below them.
proof fn lemma_cut_grains(v: nat, e: int, n: int, rest: int)
    requires
        e + 30 < 0,
        v == n * pow(10, (-(e + 30)) as nat) + rest,
        0 <= rest < pow(10, (-(e + 30)) as nat),
    ensures
        ({
            let x = power_of_ten(v, e);
            let rho = rest * single::grain();
            x.den > 0 && 0 <= rho < x.den && x.num * single::grain() == n * x.den + rho && (rho > 0
                <==> rest > 0)
        }),
{
    let x = power_of_ten(v, e);
    let c = pow(10, (-(e + 30)) as nat);
    lemma_grain();
    lemma_pow_adds(10, (-(e + 30)) as nat, 30);
    assert(x.den == c * single::grain());
    assert((n * c + rest) * single::grain() == n * (c * single::grain()) + rest * single::grain())
        by (nonlinear_arith);
    assert(0 <= rest * single::grain() < c * single::grain()) by (nonlinear_arith)
        requires
            0 <= rest < c,
            single::grain() > 0,
    ;
    assert(rest * single::grain() > 0 <==> rest > 0) by (nonlinear_arith)
        requires
            single::grain() > 0,
            rest >= 0,
    ;
}

proof fn lemma_many(v: nat, e: int, n: int, rho: int)
    requires
        ({
            let x = power_of_ten(v, e);
            x.den > 0 && 0 <= rho && x.num * single::grain() == n * x.den + rho
        }),
        n >= 16 * single::grain(),
    ensures
        power_of_ten(v, e).num >= 16 * power_of_ten(v, e).den,
{
    let x = power_of_ten(v, e);
    assert(x.num >= 16 * x.den) by (nonlinear_arith)
        requires
            x.num * single::grain() == n * x.den + rho,
            n >= 16 * single::grain(),
            rho >= 0,
            x.den > 0,
            single::grain() > 0,
    ;
}

/// Counts the grains of a number from its digits and the power of ten that
/// they are multiplied by.
fn count_grains(digits: &Vec<char>, e: i128) -> (g: Grains)
    requires
        number::all_digits(digits@),
        -0x1_0000_0000_0000_0000_0000_0000_0000 <= e <= 0x1_0000_0000_0000_0000_0000_0000_0000,
    ensures
        grains_of(g, power_of_ten(number::value_of(digits@), e as int)),
{
    let cap: u128 = 16_000_000_000_000_000_000_000_000_000_000;
    let pos: i128 = e + 30;
    let len: usize = digits.len();
    let keep: usize = if pos >= 0 {
        len
    } else if -pos >= len as i128 {
        0
    } else {
        (len as i128 + pos) as usize
    };
    let ghost v = number::value_of(digits@);
    let ghost head = number::value_of(digits@.take(keep as int)) as int;
    let ghost tail = number::value_of(digits@.skip(keep as int)) as int;
    let ghost x = power_of_ten(v, e as int);
    let ghost whole = if pos >= 0 {
        v * pow(10, pos as nat)
    } else {
        head
    };
    let ghost rho = if pos >= 0 {
        0
    } else {
        tail * single::grain()
    };
    proof {
        lemma_value_splits(digits@, keep as int);
        if pos >= 0 {
            assert(digits@.take(keep as int) =~= digits@);
            lemma_exact_grains(v, e as int, whole);
            let p = pow(10, pos as nat);
            lemma_pow_positive(10, pos as nat);
            assert(v * p >= v) by (nonlinear_arith)
                requires
                    p >= 1,
                    v >= 0,
            ;
        } else if keep == 0 {
            assert(head == 0);
            assert(digits@.skip(0) =~= digits@);
            if len < -pos {
                lemma_pow_increases(10, len as nat, (-pos) as nat);
            }
            lemma_cut_grains(v, e as int, 0, v as int);
        } else {
            lemma_cut_grains(v, e as int, head, tail);
        }
    }
    let mut acc: u128 = 0;
    for i in 0..keep
        invariant
            keep <= digits@.len(),
            number::all_digits(digits@),
            cap == 16 * single::grain(),
            acc < cap,
            acc == number::value_of(digits@.take(i as int)),
            v == number::value_of(digits@),
            head == number::value_of(digits@.take(keep as int)),
            x == power_of_ten(v, e as int),
            x.den > 0,
            0 <= rho,
            x.num * single::grain() == whole * x.den + rho,
            whole >= head,
    {
        proof {
            assert(digits@.take(i + 1).drop_last() =~= digits@.take(i as int));
            assert(number::is_digit(digits@[i as int]));
        }
        acc = acc * 10 + (digits[i] as u8 - 48) as u128;
        if acc >= cap {
            proof {
                assert(digits@.take(keep as int).take(i + 1) =~= digits@.take(i + 1));
                assert(number::all_digits(digits@.take(keep as int)));
                number::lemma_prefix_value(digits@.take(keep as int), i + 1);
                lemma_many(v, e as int, whole, rho);
            }
            return Grains::Many;
        }
    }
    if pos < 0 {
        let mut left_over = false;
        for i in keep..len
            invariant
                keep <= len == digits@.len(),
                left_over <==> (exists|k: int| keep <= k < i && #[trigger] digits@[k] != '0'),
        {
            if digits[i] != '0' {
                left_over = true;
            }
        }
        proof {
            let s = digits@.skip(keep as int);
            assert(number::all_digits(s)) by {
                assert forall|k: int| 0 <= k < s.len() implies number::is_digit(#[trigger] s[k]) by {
                    assert(number::is_digit(digits@[keep + k]));
                }
            }
            lemma_value_zero(s);
            if left_over {
                let k = choose|k: int| keep <= k < len && #[trigger] digits@[k] != '0';
                assert(s[k - keep] != '0');
                assert(tail != 0);
            } else {
                assert forall|k: int| 0 <= k < s.len() implies #[trigger] s[k] == '0' by {
                    assert(digits@[keep + k] == '0');
                }
                assert(tail == 0);
            }
            assert(rho > 0 <==> tail > 0) by (nonlinear_arith)
                requires
                    rho == tail * single::grain(),
                    single::grain() > 0,
                    tail >= 0,
            ;
        }
        return Grains::Few(acc, left_over, Ghost(rho));
    }
    proof {
        assert(digits@.take(keep as int) =~= digits@);
        reveal(pow);
        assert(pow(10, 0) == 1);
    }
    let mut times: i128 = pos;
    while times > 0 && acc > 0
        invariant
            cap == 16 * single::grain(),
            acc < cap,
            0 <= times <= pos,
            acc == v * pow(10, (pos - times) as nat),
            v == number::value_of(digits@),
            x == power_of_ten(v, e as int),
            x.den > 0,
            x.num * single::grain() == (v * pow(10, pos as nat)) * x.den,
        decreases times,
    {
        proof {
            let done = (pos - times) as nat;
            let p = pow(10, done);
            reveal(pow);
            assert(pow(10, done + 1) == 10 * p);
            assert(v * (10 * p) == (v * p) * 10) by (nonlinear_arith);
        }
        acc = acc * 10;
        times = times - 1;
        if acc >= cap {
            proof {
                let done = (pos - times) as nat;
                lemma_pow_increases(10, done, pos as nat);
                let p = pow(10, done);
                let all = pow(10, pos as nat);
                assert(v * all >= v * p) by (nonlinear_arith)
                    requires
                        all >= p,
                        v >= 0,
                ;
                lemma_many(v, e as int, v * all, 0);
            }
            return Grains::Many;
        }
    }
    proof {
        let all = pow(10, pos as nat);
        if times > 0 {
            let p = pow(10, (pos - times) as nat);
            lemma_pow_positive(10, (pos - times) as nat);
            assert(v == 0) by (nonlinear_arith)
                requires
                    v * p == 0,
                    p > 0,
            ;
            assert(v * all == 0) by (nonlinear_arith)
                requires
                    v == 0,
            ;
        }
        assert(acc == v * all);
    }
    Grains::Few(acc, false, Ghost(0))
}

/// The tenths of a number, with 128 for every number of tenths from there on.
spec fn capped_tenths(x: Ratio) -> int {
    if single::tenths_of(x) >= 128 {
        128
    } else {
        single::tenths_of(x)
    }
}

fn only_digits(chars: &Vec<char>) -> (b: bool)
    ensures
        b == number::all_digits(chars@),
{
    for i in 0..chars.len()
        invariant
            forall|k: int| 0 <= k < i ==> number::is_digit(#[trigger] chars@[k]),
    {
        if !number::digit(chars[i]) {
            proof {
                assert(!number::is_digit(chars@[i as int]));
            }
            return false;
        }
    }
    true
}

/// A power of ten as it stands beyond every length of a text.
const HUGE: u128 = 0x1_0000_0000_0000_0000_0000_0000;

/// The power of ten after an exponent mark.
enum Power {
    /// It is this.
    Exactly(i128),
    /// It is above `HUGE`.
    Above,
    /// It is below `-HUGE`.
    Below,
}

spec fn power_is(p: Power, e: int) -> bool {
    match p {
        Power::Exactly(n) => n == e && -HUGE <= n <= HUGE,
        Power::Above => e > HUGE,
        Power::Below => e < -HUGE,
    }
}

fn read_power(chars: &Vec<char>) -> (p: Option<Power>)
    ensures
        p is Some <==> number::signed(chars@) is Some,
        p matches Some(p) ==> power_is(p, number::signed(chars@)->0),
{
    let negative = chars.len() > 0 && chars[0] == '-';
    let from: usize = if chars.len() > 0 && (chars[0] == '-' || chars[0] == '+') {
        1
    } else {
        0
    };
    let digits = text::part(chars, from, chars.len());
    proof {
        if from == 1 {
            assert(digits@ =~= chars@.drop_first());
        } else {
            assert(digits@ =~= chars@);
        }
    }
    if digits.len() == 0 || !only_digits(&digits) {
        return None;
    }
    match number::read_natural(&digits, HUGE) {
        Some(n) => {
            if negative {
                Some(Power::Exactly(-(n as i128)))
            } else {
                Some(Power::Exactly(n as i128))
            }
        },
        None => {
            if negative {
                Some(Power::Below)
            } else {
                Some(Power::Above)
            }
        },
    }
}

/// A digit above zero, times ten to a power of two or more, is 16 or more.
proof fn lemma_power_large(v: nat, e: int)
    requires
        v > 0,
        e >= 2,
    ensures
        power_of_ten(v, e).den > 0,
        power_of_ten(v, e).num >= 16 * power_of_ten(v, e).den,
{
    lemma_pow_increases(10, 2, e as nat);
    reveal_with_fuel(pow, 3);
    let p = pow(10, e as nat);
    assert(v * p >= 16) by (nonlinear_arith)
        requires
            v >= 1,
            p >= 100,
    ;
}

/// Digits far behind the decimal point write next to nothing.
proof fn lemma_power_small(v: nat, e: int, len: nat)
    requires
        v < pow(10, len),
        e <= -(len + 2),
    ensures
        power_of_ten(v, e).den > 0,
        64 * power_of_ten(v, e).num < power_of_ten(v, e).den,
{
    lemma_pow_adds(10, len, 2);
    lemma_pow_increases(10, len + 2, (-e) as nat);
    reveal_with_fuel(pow, 3);
    let p = pow(10, len);
    assert(p * pow(10, 2) == 100 * p) by (nonlinear_arith)
        requires
            pow(10, 2) == 100,
    ;
}

/// Rounds digits times a power of ten to tenths.
fn digits_tenths(digits: &Vec<char>, e: i128) -> (t: u32)
    requires
        number::all_digits(digits@),
        -2 * HUGE <= e <= 2 * HUGE,
    ensures
        t == capped_tenths(power_of_ten(number::value_of(digits@), e as int)),
{
    let ghost x = power_of_ten(number::value_of(digits@), e as int);
    proof {
        if e < 0 {
            lemma_pow_positive(10, (-e) as nat);
        } else {
            lemma_pow_positive(10, e as nat);
            lemma_mul_nonnegative(number::value_of(digits@) as int, pow(10, e as nat));
        }
    }
    match count_grains(digits, e) {
        Grains::Many => {
            proof {
                single::lemma_large_tenths(x);
            }
            128
        },
        Grains::Few(n, left_over, rho) => {
            let t = single::round_tenths(n, left_over, Ghost(x), rho);
            if t >= 128 {
                128
            } else {
                t
            }
        },
    }
}

/// Rounds a number without a sign to tenths.
fn magnitude_tenths(chars: &Vec<char>) -> (t: Option<u32>)
    ensures
        match magnitude(chars@) {
            Some(x) => t matches Some(t) && t == capped_tenths(x),
            None => t is None,
        },
{
    let mark = find(chars, 'e', 'E');
    let m = text::part(chars, 0, mark);
    let point = find(&m, '.', '.');
    let mut digits = text::part(&m, 0, point);
    let mut places: usize = 0;
    proof {
        assert(m@ =~= mantissa(chars@));
        assert(digits@ =~= m@.take(point as int));
        assert(digits@ + Seq::<char>::empty() =~= digits@);
    }
    if point < m.len() {
        let mut rest = text::part(&m, point + 1, m.len());
        proof {
            assert(rest@ =~= fraction(m@));
        }
        places = rest.len();
        digits.append(&mut rest);
    }
    proof {
        assert(digits@ == significand(m@));
        assert(places == fraction(m@).len());
    }
    if digits.len() == 0 || !only_digits(&digits) {
        return None;
    }
    let ghost v = number::value_of(digits@);
    let power = if mark < chars.len() {
        let tail = text::part(chars, mark + 1, chars.len());
        proof {
            assert(tail@ =~= chars@.skip(mark + 1));
        }
        match read_power(&tail) {
            Some(power) => power,
            None => {
                return None;
            },
        }
    } else {
        Power::Exactly(0)
    };
    let ghost e = exponent(chars@)->0 - places;
    match power {
        Power::Exactly(n) => Some(digits_tenths(&digits, n - places as i128)),
        Power::Above => {
            let mut zero = true;
            for i in 0..digits.len()
                invariant
                    zero <==> (forall|k: int| 0 <= k < i ==> #[trigger] digits@[k] == '0'),
            {
                if digits[i] != '0' {
                    proof {
                        assert(digits@[i as int] != '0');
                    }
                    zero = false;
                }
            }
            proof {
                lemma_value_zero(digits@);
                let x = power_of_ten(v, e);
                if zero {
                    assert(v * pow(10, e as nat) == 0) by (nonlinear_arith)
                        requires
                            v == 0,
                    ;
                    single::lemma_small_tenths(x);
                } else {
                    lemma_power_large(v, e);
                    single::lemma_large_tenths(x);
                }
            }
            if zero {
                Some(0)
            } else {
                Some(128)
            }
        },
        Power::Below => {
            proof {
                lemma_value_splits(digits@, 0);
                assert(digits@.skip(0) =~= digits@);
                lemma_power_small(v, e, digits@.len());
                single::lemma_small_tenths(power_of_ten(v, e));
            }
            Some(0)
        },
    }
}

/// A text that is a number of decibels, and within range, comes to the nearest
/// whole tenths, with its sign; but for the little that two roundings to 24 bits
/// can move it.
pub proof fn gain_is_the_nearest_tenth(s: Seq<char>)
    ensures
        gain(s) matches Some(Reading::Tenths(t)) ==> ({
            let x = magnitude(unsigned_part(s))->0;
            let size = if s[0] == '-' {
                -(t as int)
            } else {
                t as int
            };
            let off = 2 * (size * x.den - 10 * x.num);
            &&& x.den > 0 && x.num >= 0
            &&& -16_778_176 * x.den <= 16_777_216 * off <= 16_778_176 * x.den
        }),
{
    if let Some(Reading::Tenths(t)) = gain(s) {
        let body = unsigned_part(s);
        let m = mantissa(body);
        let x = magnitude(body)->0;
        let v = number::natural(significand(m))->0;
        let e = exponent(body)->0 - fraction(m).len();
        assert(x == power_of_ten(v, e));
        if e >= 0 {
            lemma_pow_positive(10, e as nat);
            lemma_mul_nonnegative(v as int, pow(10, e as nat));
        } else {
            lemma_pow_positive(10, (-e) as nat);
        }
        if s.len() == 0 {
            assert(first_of(body, 'e', 'E') == 0);
            assert(significand(m) =~= Seq::empty());
        }
        if x.num > 16 * x.den {
            single::lemma_large_tenths(x);
        } else {
            single::tenths_are_near(x);
        }
    }
}

/// A number is refused only where its tenths, with its sign, are below -80 or
/// above 60.
pub proof fn refused_numbers_are_out_of_range(s: Seq<char>)
    requires
        gain(s) == Some(Reading::OutOfRange),
        ({
            let word = text::lowered(unsigned_part(s));
            word != "nan"@ && word != "inf"@ && word != "infinity"@
        }),
    ensures
        magnitude(unsigned_part(s)) matches Some(x) && if s.len() > 0 && s[0] == '-' {
            single::tenths_of(x) > 80 || single::tenths_of(x) < -60
        } else {
            single::tenths_of(x) > 60 || single::tenths_of(x) < -80
        },
{
}

/// Reads a gain in decibels.
pub fn read_gain(chars: &Vec<char>) -> (r: Option<Reading>)
    ensures
        r == gain(chars@),
{
    let negative = chars.len() > 0 && chars[0] == '-';
    let from: usize = if chars.len() > 0 && (chars[0] == '-' || chars[0] == '+') {
        1
    } else {
        0
    };
    let body = text::part(chars, from, chars.len());
    proof {
        assert(body@ =~= unsigned_part(chars@));
    }
    let word = text::text_of(&text::to_lower(&body));
    if text::same_text(word.as_str(), "nan") || text::same_text(word.as_str(), "inf")
        || text::same_text(word.as_str(), "infinity") {
        Some(Reading::OutOfRange)
    } else {
        match magnitude_tenths(&body) {
            Some(t) => {
                if negative {
                    if t <= 80 {
                        Some(Reading::Tenths(-(t as i16)))
                    } else {
                        Some(Reading::OutOfRange)
                    }
                } else if t <= 60 {
                    Some(Reading::Tenths(t as i16))
                } else {
                    Some(Reading::OutOfRange)
                }
            },
            None => None,
        }
    }
}

} // verus!
