//! The key mapper: from a note's symbol to the character that is typed for it.
//!
//! A symbol names a key as `1Key` followed by the key's number. Fifteen keys
//! exist, numbered 0 to 14; every other symbol maps to nothing and is skipped
//! by playback.

use vstd::prelude::*;
use crate::text::chars_of;

verus! {

/// Whether `c` is one of the ASCII digits `0` to `9`.
pub open spec fn is_digit(c: char) -> bool {
    '0' as u32 <= c as u32 <= '9' as u32
}

/// The number that the decimal digits `digits` write, most significant first.
pub open spec fn decimal_value(digits: Seq<char>) -> nat
    decreases digits.len(),
{
    if digits.len() == 0 {
        0
    } else {
        decimal_value(digits.drop_last()) * 10 + (digits.last() as u32 - '0' as u32) as nat
    }
}

/// Whether every character of `digits` is an ASCII digit.
pub open spec fn all_digits(digits: Seq<char>) -> bool {
    forall|i: int| 0 <= i < digits.len() ==> is_digit(#[trigger] digits[i])
}

/// What is left of `text` once a leading plus sign, if there is one, is taken
/// off.
pub open spec fn without_sign(text: Seq<char>) -> Seq<char> {
    if text.len() > 0 && text[0] == '+' {
        text.skip(1)
    } else {
        text
    }
}

/// The number written by `text` as an unsigned decimal numeral: an optional
/// plus sign, then one or more ASCII digits. Leading zeros are allowed.
pub open spec fn numeral(text: Seq<char>) -> Option<nat> {
    let digits = without_sign(text);
    if digits.len() > 0 && all_digits(digits) {
        Some(decimal_value(digits))
    } else {
        None
    }
}

/// The character typed for key number `n`.
pub open spec fn key_for_number(n: nat) -> Option<char> {
    if n == 0 {
        Some('y')
    } else if n == 1 {
        Some('u')
    } else if n == 2 {
        Some('i')
    } else if n == 3 {
        Some('o')
    } else if n == 4 {
        Some('p')
    } else if n == 5 {
        Some('h')
    } else if n == 6 {
        Some('j')
    } else if n == 7 {
        Some('k')
    } else if n == 8 {
        Some('l')
    } else if n == 9 {
        Some(';')
    } else if n == 10 {
        Some('n')
    } else if n == 11 {
        Some('m')
    } else if n == 12 {
        Some('.')
    } else if n == 13 {
        Some(',')
    } else if n == 14 {
        Some('/')
    } else {
        None
    }
}

/// The prefix that every key symbol starts with.
pub open spec fn symbol_prefix() -> Seq<char> {
    seq!['1', 'K', 'e', 'y']
}

/// The character typed for the note symbol `symbol`, if it names a key.
pub open spec fn mapped_key(symbol: Seq<char>) -> Option<char> {
    if symbol.len() >= 4 && symbol.take(4) == symbol_prefix() {
        match numeral(symbol.skip(4)) {
            Some(n) => key_for_number(n),
            None => None,
        }
    } else {
        None
    }
}

/// Appending a digit multiplies the value by ten and adds the digit.
proof fn lemma_decimal_value_push(digits: Seq<char>, c: char)
    ensures
        decimal_value(digits.push(c)) == decimal_value(digits) * 10 + (c as u32 - '0' as u32) as nat,
{
    assert(digits.push(c).drop_last() == digits);
}

/// The character typed for key number `n`, for the fifteen keys that exist.
pub fn key_char(n: u32) -> (key: Option<char>)
    ensures
        key == key_for_number(n as nat),
{
    match n {
        0 => Some('y'),
        1 => Some('u'),
        2 => Some('i'),
        3 => Some('o'),
        4 => Some('p'),
        5 => Some('h'),
        6 => Some('j'),
        7 => Some('k'),
        8 => Some('l'),
        9 => Some(';'),
        10 => Some('n'),
        11 => Some('m'),
        12 => Some('.'),
        13 => Some(','),
        14 => Some('/'),
        _ => None,
    }
}

/// Maps a note symbol to the character to type, or to `None` where the symbol
/// names no key. The note is then skipped: it is counted, never typed.
#[verifier::loop_isolation(false)]
pub fn map_key(key_str: &str) -> (key: Option<char>)
    ensures
        key == mapped_key(key_str@),
{
    let chars = chars_of(key_str);
    let n = chars.len();
    if n < 4 || chars[0] != '1' || chars[1] != 'K' || chars[2] != 'e' || chars[3] != 'y' {
        assert(n >= 4 ==> key_str@.take(4) != symbol_prefix());
        return None;
    }
    assert(key_str@.take(4) =~= symbol_prefix());
    let ghost rest = key_str@.skip(4);
    let mut i: usize = 4;
    if i < n && chars[i] == '+' {
        i = i + 1;
    }
    let start: usize = i;
    let ghost digits = chars@.subrange(start as int, n as int);
    assert(digits =~= without_sign(rest));
    if i == n {
        return None;
    }
    // `value` follows the digits read so far and stops growing at 15, the
    // first number that names no key.
    let mut value: u32 = 0;
    while i < n
        invariant
            start <= i <= n,
            n == chars.len(),
            digits == chars@.subrange(start as int, n as int),
            forall|j: int| 0 <= j < i - start ==> is_digit(#[trigger] digits[j]),
            value <= 15,
            value < 15 ==> value == decimal_value(chars@.subrange(start as int, i as int)),
            value == 15 ==> decimal_value(chars@.subrange(start as int, i as int)) >= 15,
        decreases n - i,
    {
        let c = chars[i];
        let code: u32 = c as u32;
        if code < 48 || code > 57 {
            assert(!is_digit(digits[i - start]));
            return None;
        }
        let d: u32 = code - 48;
        proof {
            lemma_decimal_value_push(chars@.subrange(start as int, i as int), c);
            assert(chars@.subrange(start as int, i as int).push(c) =~= chars@.subrange(
                start as int,
                i + 1,
            ));
        }
        value = if value >= 2 {
            15
        } else if value * 10 + d > 15 {
            15
        } else {
            value * 10 + d
        };
        i = i + 1;
    }
    key_char(value)
}

} // verus!
