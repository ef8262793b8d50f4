//! Whole numbers read from text.

use vstd::prelude::*;

use crate::text;
use crate::text::part;

verus! {

/// Whether `c` is one of `0` to `9`.
pub open spec fn is_digit(c: char) -> bool {
    '0' <= c <= '9'
}

/// What a digit stands for.
pub open spec fn digit_value(c: char) -> int {
    c as int - 48
}

/// Whether `s` holds digits and nothing else.
pub open spec fn all_digits(s: Seq<char>) -> bool {
    forall|i: int| 0 <= i < s.len() ==> is_digit(#[trigger] s[i])
}

/// The number that a run of digits writes in decimal.
pub open spec fn value_of(s: Seq<char>) -> nat
    decreases s.len(),
{
    if s.len() == 0 {
        0
    } else {
        (value_of(s.drop_last()) * 10 + digit_value(s.last())) as nat
    }
}

/// The number written by at least one digit and nothing else.
pub open spec fn natural(s: Seq<char>) -> Option<nat> {
    if s.len() > 0 && all_digits(s) {
        Some(value_of(s))
    } else {
        None
    }
}

/// The number written by digits with an optional plus sign before them.
pub open spec fn unsigned(s: Seq<char>) -> Option<nat> {
    if s.len() > 0 && s[0] == '+' {
        natural(s.drop_first())
    } else {
        natural(s)
    }
}

/// The number written by digits with an optional plus or minus sign before
/// them.
pub open spec fn signed(s: Seq<char>) -> Option<int> {
    if s.len() > 0 && s[0] == '-' {
        match natural(s.drop_first()) {
            Some(n) => Some(-(n as int)),
            None => None,
        }
    } else {
        match unsigned(s) {
            Some(n) => Some(n as int),
            None => None,
        }
    }
}

/// Why a text is not a number from 0 to 255.
#[derive(Clone, Copy, PartialEq, Eq, Structural, Debug)]
pub enum IntFault {
    /// There is no character at all.
    Empty,
    /// A character that is no digit stands where a digit should.
    InvalidDigit,
    /// The digits write a number above 255.
    TooLarge,
}

/// Reads digits from the left, after digits that came to `acc`. The first
/// character at which no number from 0 to 255 is left decides the fault.
pub open spec fn scan_byte(s: Seq<char>, acc: int) -> Result<u8, IntFault>
    decreases s.len(),
{
    if s.len() == 0 {
        Ok(acc as u8)
    } else if !is_digit(s[0]) {
        Err(IntFault::InvalidDigit)
    } else if acc * 10 + digit_value(s[0]) > 255 {
        Err(IntFault::TooLarge)
    } else {
        scan_byte(s.drop_first(), acc * 10 + digit_value(s[0]))
    }
}

/// The number from 0 to 255 that `s` writes, with an optional plus sign.
pub open spec fn byte_of(s: Seq<char>) -> Result<u8, IntFault> {
    if s.len() == 0 {
        Err(IntFault::Empty)
    } else if s.len() > 1 && s[0] == '+' {
        scan_byte(s.drop_first(), 0)
    } else {
        scan_byte(s, 0)
    }
}

/// Whether `c` is a decimal digit.
pub fn digit(c: char) -> (b: bool)
    ensures
        b == is_digit(c),
{
    '0' <= c && c <= '9'
}

/// A prefix of digits writes a number no greater than the whole.
pub proof fn lemma_prefix_value(s: Seq<char>, k: int)
    requires
        all_digits(s),
        0 <= k <= s.len(),
    ensures
        value_of(s.take(k)) <= value_of(s),
    decreases s.len(),
{
    if k < s.len() {
        assert(s.drop_last().take(k) =~= s.take(k));
        lemma_prefix_value(s.drop_last(), k);
        assert(is_digit(s.last()));
    } else {
        assert(s.take(k) =~= s);
    }
}

/// Reads a number written by digits alone, if it is at most `limit`.
pub fn read_natural(chars: &Vec<char>, limit: u128) -> (r: Option<u128>)
    requires
        limit <= 0xffff_ffff_ffff_ffff_ffff_ffff_ffff,
    ensures
        r == (match natural(chars@) {
            Some(n) if n <= limit => Some(n as u128),
            _ => None,
        }),
{
    if chars.len() == 0 {
        return None;
    }
    let mut acc: u128 = 0;
    for i in 0..chars.len()
        invariant
            limit <= 0xffff_ffff_ffff_ffff_ffff_ffff_ffff,
            acc <= limit,
            acc == value_of(chars@.take(i as int)),
            all_digits(chars@.take(i as int)),
    {
        let c = chars[i];
        if !digit(c) {
            proof {
                assert(!is_digit(chars@[i as int]));
            }
            return None;
        }
        proof {
            assert(chars@.take(i + 1).drop_last() =~= chars@.take(i as int));
            assert(chars@.take(i + 1).last() == c);
            assert forall|k: int| 0 <= k < i + 1 implies is_digit(
                #[trigger] chars@.take(i + 1)[k],
            ) by {
                if k < i {
                    assert(is_digit(chars@.take(i as int)[k]));
                }
            }
        }
        acc = acc * 10 + (c as u8 - 48) as u128;
        if acc > limit {
            proof {
                if all_digits(chars@) {
                    lemma_prefix_value(chars@, i + 1);
                }
            }
            return None;
        }
    }
    proof {
        assert(chars@.take(chars@.len() as int) =~= chars@);
    }
    Some(acc)
}

/// Reads a number with an optional plus sign, if it is at most `limit`.
pub fn read_unsigned(chars: &Vec<char>, limit: u128) -> (r: Option<u128>)
    requires
        limit <= 0xffff_ffff_ffff_ffff_ffff_ffff_ffff,
    ensures
        r == (match unsigned(chars@) {
            Some(n) if n <= limit => Some(n as u128),
            _ => None,
        }),
{
    if chars.len() > 0 && chars[0] == '+' {
        proof {
            assert(chars@.subrange(1, chars@.len() as int) =~= chars@.drop_first());
        }
        read_natural(&part(chars, 1, chars.len()), limit)
    } else {
        read_natural(chars, limit)
    }
}

/// Reads a number from -128 to 127 with an optional sign.
pub fn read_i8(chars: &Vec<char>) -> (r: Option<i8>)
    ensures
        r == (match signed(chars@) {
            Some(n) if -128 <= n <= 127 => Some(n as i8),
            _ => None,
        }),
{
    if chars.len() > 0 && chars[0] == '-' {
        proof {
            assert(chars@.subrange(1, chars@.len() as int) =~= chars@.drop_first());
        }
        match read_natural(&part(chars, 1, chars.len()), 128) {
            Some(n) => Some((-(n as i16)) as i8),
            None => None,
        }
    } else {
        match read_unsigned(chars, 127) {
            Some(n) => Some(n as i8),
            None => None,
        }
    }
}

/// Reads a number from 0 to 255 with an optional plus sign, and says what is
/// wrong where there is none.
pub fn read_byte(chars: &Vec<char>) -> (r: Result<u8, IntFault>)
    ensures
        r == byte_of(chars@),
{
    if chars.len() == 0 {
        return Err(IntFault::Empty);
    }
    let mut i: usize = if chars.len() > 1 && chars[0] == '+' {
        1
    } else {
        0
    };
    proof {
        assert(chars@.skip(0) =~= chars@);
        assert(chars@.skip(1) =~= chars@.drop_first());
    }
    let mut acc: u16 = 0;
    while i < chars.len()
        invariant
            i <= chars@.len(),
            acc <= 255,
            byte_of(chars@) == scan_byte(chars@.skip(i as int), acc as int),
        decreases chars@.len() - i,
    {
        let c = chars[i];
        if !digit(c) {
            return Err(IntFault::InvalidDigit);
        }
        let next: u16 = acc * 10 + (c as u8 - 48) as u16;
        if next > 255 {
            return Err(IntFault::TooLarge);
        }
        proof {
            assert(chars@.skip(i as int).drop_first() =~= chars@.skip(i + 1));
        }
        acc = next;
        i += 1;
    }
    Ok(acc as u8)
}

proof fn lemma_decimal(n: nat)
    ensures
        text::decimal(n).len() > 0,
        all_digits(text::decimal(n)),
        value_of(text::decimal(n)) == n,
    decreases n,
{
    let d = text::decimal(n);
    if n < 10 {
        assert(d.drop_last() =~= Seq::empty());
        assert(value_of(d.drop_last()) == 0);
        assert(d.last() == text::digit_char(n as int));
    } else {
        lemma_decimal(n / 10);
        assert(d.drop_last() =~= text::decimal(n / 10));
        assert(d.last() == text::digit_char(n as int % 10));
        assert forall|i: int| 0 <= i < d.len() implies is_digit(#[trigger] d[i]) by {
            if i < d.len() - 1 {
                assert(is_digit(text::decimal(n / 10)[i]));
            }
        }
    }
}

/// A number reads back from its decimal form, with its sign or without.
pub proof fn decimal_reads_back(n: int)
    ensures
        n >= 0 ==> unsigned(text::decimal(n as nat)) == Some(n as nat),
        n >= 0 ==> unsigned(seq!['+'] + text::decimal(n as nat)) == Some(n as nat),
        signed(text::signed_decimal(n)) == Some(n),
{
    if n >= 0 {
        let d = text::decimal(n as nat);
        lemma_decimal(n as nat);
        assert(is_digit(d[0]));
        assert((seq!['+'] + d).drop_first() =~= d);
    } else {
        let d = text::decimal((-n) as nat);
        lemma_decimal((-n) as nat);
        assert((seq!['-'] + d).drop_first() =~= d);
    }
}

/// What reads as a number is decimal digits, at least one, with at most a sign
/// before them; a minus sign only where numbers below zero are meant.
pub proof fn numbers_are_written_in_digits(s: Seq<char>, i: int)
    requires
        0 <= i < s.len(),
    ensures
        unsigned(s) is Some ==> (48 <= s[i] as u32 <= 57 || (i == 0 && s.len() > 1 && s[0] as u32
            == 43)),
        signed(s) is Some ==> (48 <= s[i] as u32 <= 57 || (i == 0 && s.len() > 1 && (s[0] as u32
            == 43 || s[0] as u32 == 45))),
{
    if i > 0 {
        assert(s.drop_first()[i - 1] == s[i]);
    }
    if unsigned(s) is Some {
        if s[0] == '+' {
            if i > 0 {
                assert(is_digit(s.drop_first()[i - 1]));
            }
        } else {
            assert(is_digit(s[i]));
        }
    }
    if signed(s) is Some && s[0] == '-' && i > 0 {
        assert(is_digit(s.drop_first()[i - 1]));
    }
}

/// Another digit at the end makes ten times the number and the digit more, and a
/// zero before the first digit changes nothing.
pub proof fn digits_count_in_tens(s: Seq<char>, c: char)
    requires
        natural(s) is Some,
        48 <= c as u32 <= 57,
    ensures
        natural(s.push(c)) == Some((10 * natural(s)->0 + (c as u32 - 48)) as nat),
        natural(seq!['0'] + s) == natural(s),
{
    let t = s.push(c);
    assert(t.drop_last() =~= s);
    assert forall|i: int| 0 <= i < t.len() implies is_digit(#[trigger] t[i]) by {
        if i < s.len() {
            assert(is_digit(s[i]));
        }
    }
    lemma_leading_zero(s);
    let z = seq!['0'] + s;
    assert forall|i: int| 0 <= i < z.len() implies is_digit(#[trigger] z[i]) by {
        if i > 0 {
            assert(is_digit(s[i - 1]));
        }
    }
}

proof fn lemma_leading_zero(s: Seq<char>)
    ensures
        value_of(seq!['0'] + s) == value_of(s),
    decreases s.len(),
{
    let z = seq!['0'] + s;
    if s.len() > 0 {
        assert(z.drop_last() =~= seq!['0'] + s.drop_last());
        lemma_leading_zero(s.drop_last());
        assert(z.last() == s.last());
    } else {
        assert(z.drop_last() =~= Seq::empty());
        assert(value_of(z.drop_last()) == 0);
    }
}

proof fn lemma_scan(head: Seq<char>, s: Seq<char>)
    requires
        all_digits(head),
        value_of(head) <= 255,
    ensures
        match scan_byte(s, value_of(head) as int) {
            Ok(n) => all_digits(head + s) && value_of(head + s) == n,
            Err(_) => !(all_digits(head + s) && value_of(head + s) <= 255),
        },
    decreases s.len(),
{
    if s.len() == 0 {
        assert(head + s =~= head);
    } else if !is_digit(s[0]) {
        assert((head + s)[head.len() as int] == s[0]);
    } else {
        let next = head.push(s[0]);
        assert(next.drop_last() =~= head);
        assert(head + s =~= next + s.drop_first());
        assert forall|i: int| 0 <= i < next.len() implies is_digit(#[trigger] next[i]) by {
            if i < head.len() {
                assert(is_digit(head[i]));
            }
        }
        if value_of(next) <= 255 {
            lemma_scan(next, s.drop_first());
        } else if all_digits(head + s) {
            lemma_prefix_value(head + s, next.len() as int);
            assert((head + s).take(next.len() as int) =~= next);
        }
    }
}

/// A component of a color is a number from 0 to 255 with an optional plus sign,
/// and nothing else is.
pub proof fn components_are_numbers(s: Seq<char>)
    ensures
        match byte_of(s) {
            Ok(n) => unsigned(s) == Some(n as nat),
            Err(_) => !(unsigned(s) matches Some(n) && n <= 255),
        },
{
    let none = Seq::<char>::empty();
    if s.len() > 1 && s[0] == '+' {
        lemma_scan(none, s.drop_first());
        assert(none + s.drop_first() =~= s.drop_first());
    } else if s.len() > 0 {
        lemma_scan(none, s);
        assert(none + s =~= s);
    }
}

} // verus!
