//! The value of `--log-level`: a decimal number between 1 and 6.

use crate::text::{chars_of, decimal, digit_char};
use vstd::prelude::*;

verus! {

/// The least log level.
pub const MIN_LOG_LEVEL: u8 = 1;

/// The greatest log level.
pub const MAX_LOG_LEVEL: u8 = 6;

/// Whether `c` is one of the digits `0` to `9`.
pub open spec fn is_digit(c: char) -> bool {
    '0' <= c <= '9'
}

/// The value of the digit `c`.
pub open spec fn digit_value(c: char) -> nat {
    (c as u32 - '0' as u32) as nat
}

/// Whether `s` holds digits only.
pub open spec fn all_digits(s: Seq<char>) -> bool {
    forall|k: int| 0 <= k < s.len() ==> is_digit(#[trigger] s[k])
}

/// The number that the digits `s` write in base ten.
pub open spec fn decimal_value(s: Seq<char>) -> nat
    decreases s.len(),
{
    if s.len() == 0 {
        0
    } else {
        decimal_value(s.drop_last()) * 10 + digit_value(s.last())
    }
}

/// The digits of `text` once an optional leading `+` is taken off.
pub open spec fn digits_of(text: Seq<char>) -> Seq<char> {
    if text.len() > 0 && text.first() == '+' {
        text.drop_first()
    } else {
        text
    }
}

/// The number that `text` writes: one or more digits, with or without a `+`
/// in front. Any other text writes no number.
pub open spec fn number_of(text: Seq<char>) -> Option<nat> {
    let digits = digits_of(text);
    if digits.len() > 0 && all_digits(digits) {
        Some(decimal_value(digits))
    } else {
        None
    }
}

/// The log level that `text` names: the number it writes, if that lies
/// between 1 and 6. Text that writes no number and a number out of this range
/// name no level.
pub open spec fn log_level_of(text: Seq<char>) -> Option<u8> {
    match number_of(text) {
        Some(n) => if MIN_LOG_LEVEL <= n <= MAX_LOG_LEVEL {
            Some(n as u8)
        } else {
            None
        },
        None => None,
    }
}

/// Reads a log level.
pub fn parse_log_level(text: &str) -> (level: Option<u8>)
    ensures
        level == log_level_of(text@),
{
    let chars = chars_of(text);
    let n = chars.len();
    let start: usize = if n > 0 && chars[0] == '+' {
        1
    } else {
        0
    };
    let ghost digits = digits_of(text@);
    assert(digits =~= chars@.skip(start as int));
    if start == n {
        return None;
    }
    // `seen` is the value of the digits read so far, held at 7 once it
    // has passed 6: no level lies beyond.
    let mut seen: u8 = 0;
    let mut i: usize = start;
    assert(digits.take(0) =~= Seq::<char>::empty());
    while i < n
        invariant
            start <= i <= n,
            n == chars.len(),
            digits == chars@.skip(start as int),
            digits == digits_of(text@),
            all_digits(digits.take(i - start)),
            seen <= 7,
            seen as nat == if decimal_value(digits.take(i - start)) <= 6 {
                decimal_value(digits.take(i - start))
            } else {
                7
            },
        decreases n - i,
    {
        let c = chars[i];
        let ghost read = digits.take(i - start);
        if !('0' <= c && c <= '9') {
            assert(!is_digit(digits[i - start]));
            return None;
        }
        let d: u8 = (c as u32 - '0' as u32) as u8;
        proof {
            let next = digits.take(i + 1 - start);
            assert(next.drop_last() =~= read);
            assert(next.last() == c);
            assert(decimal_value(next) == decimal_value(read) * 10 + d);
            assert forall|k: int| 0 <= k < next.len() implies is_digit(#[trigger] next[k]) by {
                if k < read.len() {
                    assert(next[k] == read[k]);
                }
            }
        }
        seen = if seen >= 7 || seen * 10 + d > 6 {
            7
        } else {
            seen * 10 + d
        };
        i += 1;
    }
    assert(digits.take(n - start) =~= digits);
    if MIN_LOG_LEVEL <= seen && seen <= MAX_LOG_LEVEL {
        Some(seen)
    } else {
        None
    }
}

/// The usual way to write a number is read back as that number.
pub proof fn lemma_decimal_is_read_back(n: nat)
    ensures
        decimal(n).len() > 0,
        all_digits(decimal(n)),
        decimal(n).first() != '+',
        decimal_value(decimal(n)) == n,
        number_of(decimal(n)) == Some(n),
    decreases n,
{
    if n < 10 {
        let s = decimal(n);
        assert(s.drop_last() =~= Seq::<char>::empty());
        assert(decimal_value(s.drop_last()) == 0);
        assert(decimal_value(s) == digit_value(digit_char(n)));
    } else {
        lemma_decimal_is_read_back(n / 10);
        let s = decimal(n);
        let front = decimal(n / 10);
        assert(s.drop_last() =~= front);
        assert(s.last() == digit_char(n % 10));
        assert(s.first() == front.first());
        assert forall|k: int| 0 <= k < s.len() implies is_digit(#[trigger] s[k]) by {
            if k < front.len() {
                assert(s[k] == front[k]);
            }
        }
        assert(decimal_value(s) == (n / 10) * 10 + n % 10);
    }
    assert(digits_of(decimal(n)) == decimal(n));
}

/// A number is a log level exactly if it lies between 1 and 6: written in
/// the usual way, each of 1 to 6 is read as itself, and 0, 7 and every
/// greater number are refused.
pub proof fn law_log_level_range(n: nat)
    ensures
        log_level_of(decimal(n)) is Some <==> 1 <= n <= 6,
        1 <= n <= 6 ==> log_level_of(decimal(n)) == Some(n as u8),
{
    lemma_decimal_is_read_back(n);
}

} // verus!
