//! Numbers as the author writes them on the command line: in decimal digits, after an optional
//! sign.

use crate::text::chars_of;
use vstd::prelude::*;

verus! {

/// Whether `c` is one of the digits `0` to `9`.
pub open spec fn is_digit(c: char) -> bool {
    0x30 <= c as u32 <= 0x39
}

/// The value of the digit `c`.
pub open spec fn digit_of(c: char) -> int {
    c as u32 - 0x30
}

/// The value of the decimal number with the digits `digits`.
pub open spec fn number_of(digits: Seq<char>) -> int
    decreases digits.len(),
{
    if digits.len() == 0 {
        0
    } else {
        number_of(digits.drop_last()) * 10 + digit_of(digits.last())
    }
}

/// Whether `digits` is one digit or more, and nothing else.
pub open spec fn is_number(digits: Seq<char>) -> bool {
    &&& digits.len() > 0
    &&& forall|i: int| 0 <= i < digits.len() ==> is_digit(digits[i])
}

/// The number that `s` writes, where it is digits after an optional `+` and fits in 32 bits.
pub open spec fn unsigned_of(s: Seq<char>) -> Option<u32> {
    let digits = if s.len() > 0 && s[0] == '+' {
        s.drop_first()
    } else {
        s
    };
    if is_number(digits) && number_of(digits) <= u32::MAX {
        Some(number_of(digits) as u32)
    } else {
        None
    }
}

/// The number that `s` writes, where it is digits after an optional `+` or `-` and fits in 32
/// bits with a sign.
pub open spec fn signed_of(s: Seq<char>) -> Option<i32> {
    let signed = s.len() > 0 && (s[0] == '+' || s[0] == '-');
    let digits = if signed {
        s.drop_first()
    } else {
        s
    };
    let value = if s.len() > 0 && s[0] == '-' {
        -number_of(digits)
    } else {
        number_of(digits)
    };
    if is_number(digits) && i32::MIN <= value <= i32::MAX {
        Some(value as i32)
    } else {
        None
    }
}

/// A number is not smaller than the number that its first `n` digits write.
pub proof fn number_of_grows(digits: Seq<char>, n: int)
    requires
        0 <= n <= digits.len(),
        forall|i: int| 0 <= i < digits.len() ==> is_digit(digits[i]),
    ensures
        0 <= number_of(digits.subrange(0, n)) <= number_of(digits),
    decreases digits.len() - n,
{
    if n == digits.len() {
        assert(digits.subrange(0, n) =~= digits);
        number_of_nonnegative(digits);
    } else {
        let front = digits.drop_last();
        number_of_grows(front, n);
        assert(front.subrange(0, n) =~= digits.subrange(0, n));
        assert(is_digit(digits.last()));
    }
}

/// A number written in digits is not negative.
pub proof fn number_of_nonnegative(digits: Seq<char>)
    requires
        forall|i: int| 0 <= i < digits.len() ==> is_digit(digits[i]),
    ensures
        0 <= number_of(digits),
    decreases digits.len(),
{
    if digits.len() > 0 {
        number_of_nonnegative(digits.drop_last());
        assert(is_digit(digits.last()));
    }
}

/// Reads the digits of `chars` from position `start` on as a number up to `cap`.
fn read_digits(chars: &Vec<char>, start: usize, cap: u64) -> (value: Option<u64>)
    requires
        start <= chars.len(),
        cap <= 0x1_0000_0000,
    ensures
        ({
            let digits = chars@.subrange(start as int, chars@.len() as int);
            match value {
                Some(value) => is_number(digits) && value == number_of(digits) && value <= cap,
                None => !(is_number(digits) && number_of(digits) <= cap),
            }
        }),
{
    let ghost digits = chars@.subrange(start as int, chars@.len() as int);
    if start == chars.len() {
        return None;
    }
    let mut value: u64 = 0;
    let mut i: usize = start;
    assert(digits.subrange(0, 0) =~= Seq::<char>::empty());
    while i < chars.len()
        invariant
            start <= i <= chars.len(),
            start < chars.len(),
            cap <= 0x1_0000_0000,
            digits == chars@.subrange(start as int, chars@.len() as int),
            forall|j: int| 0 <= j < i - start ==> is_digit(digits[j]),
            value == number_of(digits.subrange(0, i - start)),
            value <= cap,
        decreases chars.len() - i,
    {
        let c = chars[i];
        let code: u32 = c as u32;
        if code < 0x30 || code > 0x39 {
            assert(!is_digit(digits[i - start]));
            return None;
        }
        let digit: u64 = (code - 0x30) as u64;
        proof {
            let longer = digits.subrange(0, i - start + 1);
            assert(longer.drop_last() =~= digits.subrange(0, i - start));
            assert(longer.last() == c);
        }
        value = value * 10 + digit;
        if value > cap {
            proof {
                if is_number(digits) {
                    number_of_grows(digits, i - start + 1);
                }
            }
            return None;
        }
        i += 1;
    }
    assert(digits.subrange(0, i - start) =~= digits);
    Some(value)
}

/// Reads `s` as a number of 32 bits without a sign.
pub fn parse_unsigned(s: &str) -> (value: Option<u32>)
    ensures
        value == unsigned_of(s@),
{
    let chars = chars_of(s);
    let start: usize = if chars.len() > 0 && chars[0] == '+' {
        1
    } else {
        0
    };
    assert(chars@.subrange(start as int, chars@.len() as int) =~= if start == 1 {
        s@.drop_first()
    } else {
        s@
    });
    match read_digits(&chars, start, 0xFFFF_FFFF) {
        Some(value) => Some(value as u32),
        None => None,
    }
}

/// Reads `s` as a number of 32 bits with a sign.
pub fn parse_signed(s: &str) -> (value: Option<i32>)
    ensures
        value == signed_of(s@),
{
    let chars = chars_of(s);
    let negative = chars.len() > 0 && chars[0] == '-';
    let start: usize = if chars.len() > 0 && (chars[0] == '+' || chars[0] == '-') {
        1
    } else {
        0
    };
    assert(chars@.subrange(start as int, chars@.len() as int) =~= if start == 1 {
        s@.drop_first()
    } else {
        s@
    });
    let cap: u64 = if negative {
        0x8000_0000
    } else {
        0x7FFF_FFFF
    };
    match read_digits(&chars, start, cap) {
        Some(value) => {
            if negative {
                Some((0 - (value as i64)) as i32)
            } else {
                Some(value as i32)
            }
        },
        None => {
            proof {
                let digits = chars@.subrange(start as int, chars@.len() as int);
                if is_number(digits) {
                    number_of_nonnegative(digits);
                }
            }
            None
        },
    }
}

} // verus!
