//! Reading numbers from text.

use crate::scalar::{clamp, limit, Scalar, SCALE};
use vstd::prelude::*;
use vstd::string::StrSliceExecFns;

verus! {

/// Whether `c` is one of the ten decimal digits.
pub open spec fn is_digit(c: char) -> bool {
    '0' <= c && c <= '9'
}

/// The value of a decimal digit.
pub open spec fn digit_value(c: char) -> int {
    c as int - '0' as int
}

/// Whether every character of `s` is a decimal digit.
pub open spec fn all_digits(s: Seq<char>) -> bool {
    forall|i: int| 0 <= i < s.len() ==> is_digit(#[trigger] s[i])
}

/// The number that a string of digits writes in base ten; zero for the
/// empty string.
pub open spec fn decimal_value(s: Seq<char>) -> int
    decreases s.len(),
{
    if s.len() == 0 {
        0
    } else {
        decimal_value(s.drop_last()) * 10 + digit_value(s.last())
    }
}

/// `s` without a leading plus sign.
pub open spec fn without_plus(s: Seq<char>) -> Seq<char> {
    if s.len() > 0 && s[0] == '+' {
        s.skip(1)
    } else {
        s
    }
}

/// The number that `s` writes, if `s` is an optional plus sign and then
/// one or more digits whose value fits in 32 bits.
pub open spec fn parse_u32(s: Seq<char>) -> Option<int> {
    let digits = without_plus(s);
    if digits.len() > 0 && all_digits(digits) && decimal_value(digits) <= u32::MAX {
        Some(decimal_value(digits))
    } else {
        None
    }
}

/// Where the sign of a decimal number ends: one if `s` starts with a plus
/// or minus sign, else zero.
pub open spec fn sign_length(s: Seq<char>) -> int {
    if s.len() > 0 && (s[0] == '+' || s[0] == '-') {
        1
    } else {
        0
    }
}

/// The index of the first full stop at or after `from`, or the length of
/// `s` where there is none.
pub open spec fn point_index(s: Seq<char>, from: int) -> int
    decreases s.len() - from,
{
    if from >= s.len() {
        s.len() as int
    } else if s[from] == '.' {
        from
    } else {
        point_index(s, from + 1)
    }
}

/// The digits before the decimal point.
pub open spec fn whole_part(s: Seq<char>) -> Seq<char> {
    s.subrange(sign_length(s), point_index(s, sign_length(s)))
}

/// The digits after the decimal point; empty where there is no point.
pub open spec fn fraction_part(s: Seq<char>) -> Seq<char> {
    let p = point_index(s, sign_length(s));
    if p < s.len() {
        s.subrange(p + 1, s.len() as int)
    } else {
        Seq::empty()
    }
}

/// The first nine digits of a fraction, with zeros where it is shorter.
pub open spec fn nine_places(fraction: Seq<char>) -> Seq<char> {
    Seq::new(
        9,
        |i: int|
            if i < fraction.len() {
                fraction[i]
            } else {
                '0'
            },
    )
}

/// Whether `s` is a decimal number: an optional sign, digits, and
/// optionally a full stop and more digits, with at least one digit in all.
pub open spec fn is_decimal(s: Seq<char>) -> bool {
    &&& all_digits(whole_part(s))
    &&& all_digits(fraction_part(s))
    &&& whole_part(s).len() + fraction_part(s).len() > 0
}

/// The fixed-point number that the decimal `s` writes: digits beyond the
/// ninth place are dropped and a magnitude beyond the range saturates.
pub open spec fn decimal_raw(s: Seq<char>) -> int {
    let size = decimal_value(whole_part(s)) * SCALE + decimal_value(nine_places(fraction_part(s)));
    if s.len() > 0 && s[0] == '-' {
        clamp(-size)
    } else {
        clamp(size)
    }
}

/// The fixed-point number that `s` writes, if `s` is a decimal number.
pub open spec fn parse_scalar(s: Seq<char>) -> Option<int> {
    if is_decimal(s) {
        Some(decimal_raw(s))
    } else {
        None
    }
}

/// A digit string never writes a negative number.
pub proof fn lemma_decimal_value_nonnegative(s: Seq<char>)
    requires
        all_digits(s),
    ensures
        0 <= decimal_value(s),
    decreases s.len(),
{
    if s.len() > 0 {
        assert(is_digit(s.last()));
        lemma_decimal_value_nonnegative(s.drop_last());
    }
}

/// Reads the digits of `s` from `from` up to `to`. Returns their value, cut
/// off at `cap`, or nothing where one of them is no digit.
fn read_digits(s: &str, from: usize, to: usize, cap: u64) -> (r: Option<u64>)
    requires
        from <= to <= s@.len(),
        cap <= 1_000_000_000_000,
    ensures
        r is Some <==> all_digits(s@.subrange(from as int, to as int)),
        r matches Some(v) ==> v as int == if decimal_value(s@.subrange(from as int, to as int))
            <= cap {
            decimal_value(s@.subrange(from as int, to as int))
        } else {
            cap as int
        },
{
    let ghost part = s@.subrange(from as int, to as int);
    let mut value: u64 = 0;
    let mut i: usize = from;
    while i < to
        invariant
            from <= i <= to <= s@.len(),
            cap <= 1_000_000_000_000,
            part == s@.subrange(from as int, to as int),
            all_digits(part.take(i - from)),
            value <= cap,
            value as int == if decimal_value(part.take(i - from)) <= cap {
                decimal_value(part.take(i - from))
            } else {
                cap as int
            },
        decreases to - i,
    {
        let c: char = s.get_char(i);
        assert(part[i - from] == c);
        if !('0' <= c && c <= '9') {
            assert(!is_digit(part[i - from]));
            return None;
        }
        let d: u64 = (c as u32 - '0' as u32) as u64;
        proof {
            let shorter = part.take(i - from);
            let longer = part.take(i - from + 1);
            assert(longer.drop_last() =~= shorter);
            assert(longer.last() == c);
            lemma_decimal_value_nonnegative(shorter);
            assert forall|j: int| 0 <= j < longer.len() implies is_digit(#[trigger] longer[j]) by {
                if j < shorter.len() {
                    assert(longer[j] == shorter[j]);
                }
            }
        }
        let next: u64 = value * 10 + d;
        value = if next > cap {
            cap
        } else {
            next
        };
        i += 1;
    }
    assert(part.take(to - from) =~= part);
    Some(value)
}

/// Reads an unsigned 32-bit number: an optional plus sign, then digits.
pub fn read_u32(s: &str) -> (r: Option<u32>)
    ensures
        r is Some <==> parse_u32(s@) is Some,
        r matches Some(v) ==> parse_u32(s@) == Some(v as int),
{
    let n: usize = s.unicode_len();
    let start: usize = if n > 0 && s.get_char(0) == '+' {
        1
    } else {
        0
    };
    if start == n {
        return None;
    }
    assert(s@.subrange(start as int, n as int) =~= without_plus(s@));
    match read_digits(s, start, n, 4_294_967_296) {
        Some(v) => {
            if v <= 0xffff_ffff {
                Some(v as u32)
            } else {
                None
            }
        },
        None => None,
    }
}

fn find_point(s: &str, from: usize, n: usize) -> (p: usize)
    requires
        from <= n == s@.len(),
    ensures
        p as int == point_index(s@, from as int),
        from <= p <= n,
{
    let mut i: usize = from;
    while i < n
        invariant
            from <= i <= n == s@.len(),
            point_index(s@, from as int) == point_index(s@, i as int),
        decreases n - i,
    {
        if s.get_char(i) == '.' {
            return i;
        }
        i += 1;
    }
    i
}

spec fn power_of_ten(k: nat) -> nat
    decreases k,
{
    if k == 0 {
        1
    } else {
        10 * power_of_ten((k - 1) as nat)
    }
}

fn read_nine_places(s: &str, from: usize, n: usize) -> (r: u64)
    requires
        from <= n == s@.len(),
        all_digits(s@.subrange(from as int, n as int)),
    ensures
        r as int == decimal_value(nine_places(s@.subrange(from as int, n as int))),
        r < 1_000_000_000,
{
    let ghost fraction = s@.subrange(from as int, n as int);
    let ghost padded = nine_places(fraction);
    let mut value: u64 = 0;
    let mut k: usize = 0;
    assert(power_of_ten(0) == 1 && power_of_ten(9) == 1_000_000_000) by {
        reveal_with_fuel(power_of_ten, 10);
    }
    while k < 9
        invariant
            k <= 9,
            from <= n == s@.len(),
            fraction == s@.subrange(from as int, n as int),
            all_digits(fraction),
            padded == nine_places(fraction),
            value as int == decimal_value(padded.take(k as int)),
            value < power_of_ten(k as nat) <= 1_000_000_000,
        decreases 9 - k,
    {
        let d: u64 = if k < n - from {
            let c: char = s.get_char(from + k);
            assert(fraction[k as int] == c);
            assert(is_digit(fraction[k as int]));
            (c as u32 - '0' as u32) as u64
        } else {
            0
        };
        proof {
            let longer = padded.take(k + 1);
            assert(longer.drop_last() =~= padded.take(k as int));
            assert(longer.last() == padded[k as int]);
            assert(digit_value(padded[k as int]) == d);
        }
        assert(power_of_ten(k as nat) <= 100_000_000 && power_of_ten((k + 1) as nat) == 10
            * power_of_ten(k as nat) && power_of_ten(0) == 1) by {
            reveal_with_fuel(power_of_ten, 10);
        }
        value = value * 10 + d;
        k += 1;
    }
    assert(padded.take(9) =~= padded);
    value
}

/// Reads a decimal number: an optional sign, digits, and optionally a full
/// stop and more digits. Digits beyond the ninth place are dropped and a
/// magnitude beyond the range saturates.
pub fn read_scalar(s: &str) -> (r: Option<Scalar>)
    ensures
        r is Some <==> parse_scalar(s@) is Some,
        r matches Some(v) ==> parse_scalar(s@) == Some(v@),
{
    let n: usize = s.unicode_len();
    let first: char = if n > 0 {
        s.get_char(0)
    } else {
        ' '
    };
    let start: usize = if n > 0 && (first == '+' || first == '-') {
        1
    } else {
        0
    };
    let point: usize = find_point(s, start, n);
    let fraction_start: usize = if point < n {
        point + 1
    } else {
        n
    };
    assert(s@.subrange(start as int, point as int) =~= whole_part(s@));
    assert(s@.subrange(fraction_start as int, n as int) =~= fraction_part(s@));
    if (point - start) + (n - fraction_start) == 0 {
        return None;
    }
    let whole: u64 = match read_digits(s, start, point, 10_000_000_000) {
        Some(v) => v,
        None => {
            return None;
        },
    };
    match read_digits(s, fraction_start, n, 0) {
        Some(_) => {},
        None => {
            return None;
        },
    }
    let places: u64 = read_nine_places(s, fraction_start, n);
    let size: u128 = (whole as u128) * 1_000_000_000 + (places as u128);
    let capped: i64 = if size > i64::MAX as u128 {
        i64::MAX
    } else {
        size as i64
    };
    proof {
        let exact = decimal_value(whole_part(s@)) * SCALE + decimal_value(
            nine_places(fraction_part(s@)),
        );
        lemma_decimal_value_nonnegative(whole_part(s@));
        if decimal_value(whole_part(s@)) > 10_000_000_000 {
            assert(exact > limit());
        }
        assert(capped == clamp(exact));
    }
    if n > 0 && first == '-' {
        Some(Scalar::from_raw(-capped))
    } else {
        Some(Scalar::from_raw(capped))
    }
}

} // verus!
