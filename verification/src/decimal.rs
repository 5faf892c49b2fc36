//! Decimal numbers as text: reading an `i32` and writing integers.

use vstd::prelude::*;
use crate::text::chars_of;
use crate::text::string_of;

verus! {

/// `c` is one of the ten ASCII digits.
pub open spec fn is_digit(c: char) -> bool {
    0x30 <= c as u32 <= 0x39
}

/// The number that the digit `c` stands for.
pub open spec fn digit_value(c: char) -> int {
    c as u32 - 0x30
}

/// The character that writes the digit `d`.
pub open spec fn digit_char(d: int) -> char {
    (0x30 + d) as u32 as char
}

/// Every character of `s` is a digit.
pub open spec fn all_digits(s: Seq<char>) -> bool {
    forall|i: int| 0 <= i < s.len() ==> is_digit(#[trigger] s[i])
}

/// The number that a run of digits writes, most significant digit first.
pub open spec fn digits_value(s: Seq<char>) -> int
    decreases s.len(),
{
    if s.len() == 0 {
        0
    } else {
        digits_value(s.drop_last()) * 10 + digit_value(s.last())
    }
}

/// What is left of `s` once one leading `+` or `-` is taken off.
pub open spec fn unsigned_part(s: Seq<char>) -> Seq<char> {
    if s.len() > 0 && (s[0] == '-' || s[0] == '+') {
        s.skip(1)
    } else {
        s
    }
}

/// The integer that `s` writes: an optional sign, then at least one digit and
/// nothing else. `None` for any other text.
pub open spec fn decimal_int(s: Seq<char>) -> Option<int> {
    let digits = unsigned_part(s);
    if digits.len() == 0 || !all_digits(digits) {
        None
    } else if s[0] == '-' {
        Some(-digits_value(digits))
    } else {
        Some(digits_value(digits))
    }
}

/// The `i32` that `s` writes, or `None` where `s` is no decimal number or the
/// number does not fit.
pub open spec fn decimal_i32(s: Seq<char>) -> Option<i32> {
    match decimal_int(s) {
        Some(v) => if i32::MIN <= v <= i32::MAX {
            Some(v as i32)
        } else {
            None
        },
        None => None,
    }
}

/// A run of digits is worth at least as much as any of its prefixes.
proof fn lemma_prefix_value(s: Seq<char>, k: int)
    requires
        all_digits(s),
        0 <= k <= s.len(),
    ensures
        0 <= digits_value(s.take(k)) <= digits_value(s),
    decreases s.len(),
{
    if s.len() > 0 {
        if k == s.len() {
            assert(s.take(k) == s);
            lemma_prefix_value(s.drop_last(), k - 1);
        } else {
            lemma_prefix_value(s.drop_last(), k);
            assert(s.drop_last().take(k) == s.take(k));
        }
    }
}

/// Reads a decimal `i32` from the characters `s`.
pub fn chars_to_i32(s: &Vec<char>) -> (r: Option<i32>)
    ensures
        r == decimal_i32(s@),
{
    let n = s.len();
    if n == 0 {
        return None;
    }
    let negative = s[0] == '-';
    let start: usize = if s[0] == '-' || s[0] == '+' {
        1
    } else {
        0
    };
    let ghost digits = unsigned_part(s@);
    if start == n {
        return None;
    }
    let mut acc: i64 = 0;
    let mut i: usize = start;
    while i < n
        invariant
            start <= i <= n,
            n == s.len(),
            digits == s@.subrange(start as int, n as int),
            digits == unsigned_part(s@),
            all_digits(digits.take(i - start)),
            acc == digits_value(digits.take(i - start)),
            0 <= acc <= 2147483648,
        decreases n - i,
    {
        let code = s[i] as u32;
        if code < 0x30 || code > 0x39 {
            proof {
                assert(!is_digit(digits[i - start]));
            }
            return None;
        }
        let d = (code - 0x30) as i64;
        proof {
            let next = digits.take(i - start + 1);
            assert(next.drop_last() == digits.take(i - start));
            assert forall|j: int| 0 <= j < next.len() implies is_digit(#[trigger] next[j]) by {}
        }
        acc = acc * 10 + d;
        if acc > 2147483648 {
            proof {
                if all_digits(digits) {
                    lemma_prefix_value(digits, i - start + 1);
                }
            }
            return None;
        }
        i += 1;
    }
    proof {
        assert(digits.take(n - start) == digits);
    }
    if negative {
        Some((-acc) as i32)
    } else if acc <= 2147483647 {
        Some(acc as i32)
    } else {
        None
    }
}

/// Reads a decimal `i32`: an optional sign, then digits only.
pub fn parse_i32(s: &str) -> (r: Option<i32>)
    ensures
        r == decimal_i32(s@),
{
    let chars = chars_of(s);
    chars_to_i32(&chars)
}

/// The digits that write `n`, without leading zeros (`0` itself is one digit).
pub open spec fn decimal_digits(n: nat) -> Seq<char>
    decreases n,
{
    if n < 10 {
        seq![digit_char(n as int)]
    } else {
        decimal_digits(n / 10).push(digit_char((n % 10) as int))
    }
}

/// The text that writes `n`: a `-` for a negative number, then its digits.
pub open spec fn decimal_text(n: int) -> Seq<char> {
    if n < 0 {
        seq!['-'] + decimal_digits((-n) as nat)
    } else {
        decimal_digits(n as nat)
    }
}

/// The digits of a number are digits, and are worth the number.
pub proof fn lemma_digits_value(n: nat)
    ensures
        decimal_digits(n).len() >= 1,
        all_digits(decimal_digits(n)),
        digits_value(decimal_digits(n)) == n,
    decreases n,
{
    if n < 10 {
        assert(digits_value(decimal_digits(n).drop_last()) == 0);
    } else {
        lemma_digits_value(n / 10);
        let more = decimal_digits(n);
        assert(more.drop_last() == decimal_digits(n / 10));
        assert forall|i: int| 0 <= i < more.len() implies is_digit(#[trigger] more[i]) by {}
    }
}

/// Reading the text that writes an `i32` gives that number back.
pub proof fn lemma_decimal_round_trip(n: i32)
    ensures
        decimal_i32(decimal_text(n as int)) == Some(n),
{
    if n < 0 {
        lemma_digits_value((-n) as nat);
        assert(decimal_text(n as int).skip(1) == decimal_digits((-n) as nat));
    } else {
        lemma_digits_value(n as nat);
    }
}

/// Appends the digits of `n` to `out`.
pub fn push_digits(n: u64, out: &mut Vec<char>)
    ensures
        final(out)@ == old(out)@ + decimal_digits(n as nat),
    decreases n,
{
    if n >= 10 {
        push_digits(n / 10, out);
    }
    let d = (n % 10) as u8;
    out.push((0x30u8 + d) as char);
}

/// The text that writes `n`.
pub fn i64_to_chars(n: i64) -> (r: Vec<char>)
    ensures
        r@ == decimal_text(n as int),
{
    let mut out: Vec<char> = Vec::new();
    if n < 0 {
        out.push('-');
        let magnitude: u64 = if n == i64::MIN {
            9223372036854775808u64
        } else {
            (-n) as u64
        };
        push_digits(magnitude, &mut out);
    } else {
        push_digits(n as u64, &mut out);
    }
    out
}

/// The text that writes `n`.
pub fn i32_to_string(n: i32) -> (r: String)
    ensures
        r@ == decimal_text(n as int),
{
    let chars = i64_to_chars(n as i64);
    string_of(&chars)
}

/// The text that writes `n`.
pub fn usize_to_string(n: usize) -> (r: String)
    ensures
        r@ == decimal_text(n as int),
{
    let mut out: Vec<char> = Vec::new();
    push_digits(n as u64, &mut out);
    string_of(&out)
}

} // verus!
