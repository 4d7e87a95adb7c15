//! The size of the memory to test, as given in mebibytes on the command
//! line, and the text of the error counter.

use vstd::prelude::*;
use vstd::utf8::encode_utf8;

verus! {

/// The number of bytes in a mebibyte.
pub const MEBIBYTE: usize = 1048576;

/// `b` is an ASCII decimal digit.
pub open spec fn is_digit(b: u8) -> bool {
    0x30 <= b <= 0x39
}

/// Every byte is an ASCII decimal digit.
pub open spec fn all_digits(text: Seq<u8>) -> bool {
    forall|i: int| 0 <= i < text.len() ==> is_digit(#[trigger] text[i])
}

/// The number that a run of decimal digits denotes.
pub open spec fn decimal_value(digits: Seq<u8>) -> nat
    decreases digits.len(),
{
    if digits.len() == 0 {
        0
    } else {
        decimal_value(digits.drop_last()) * 10 + (digits.last() - 0x30) as nat
    }
}

/// The text without one leading plus sign.
pub open spec fn unsigned_part(text: Seq<u8>) -> Seq<u8> {
    if text.len() > 0 && text[0] == 0x2b {
        text.skip(1)
    } else {
        text
    }
}

/// The number of bytes that a count of mebibytes in decimal stands for, if
/// the text is such a count and the number of bytes fits the machine word.
pub open spec fn memory_bytes(text: Seq<u8>) -> Option<usize> {
    let digits = unsigned_part(text);
    if digits.len() > 0 && all_digits(digits) && decimal_value(digits) * 1048576 <= usize::MAX {
        Some((decimal_value(digits) * 1048576) as usize)
    } else {
        None
    }
}

/// A run of digits denotes at least what any of its prefixes denotes.
pub proof fn lemma_decimal_value_grows(digits: Seq<u8>, m: int)
    requires
        0 <= m <= digits.len(),
        all_digits(digits),
    ensures
        decimal_value(digits.take(m)) <= decimal_value(digits),
    decreases digits.len(),
{
    if m == digits.len() {
        assert(digits.take(m) =~= digits);
    } else {
        let front = digits.drop_last();
        assert(front.take(m) =~= digits.take(m));
        assert(all_digits(front)) by {
            assert forall|i: int| 0 <= i < front.len() implies is_digit(#[trigger] front[i]) by {
                assert(front[i] == digits[i]);
            }
        }
        lemma_decimal_value_grows(front, m);
        assert(is_digit(digits[digits.len() - 1]));
    }
}

/// Reads a count of mebibytes in decimal and gives the number of bytes.
pub fn parse_memory_bytes(mem_opt_str: &String) -> (r: Option<usize>)
    ensures
        r == memory_bytes(encode_utf8(mem_opt_str@)),
{
    let text: &[u8] = mem_opt_str.as_str().as_bytes();
    let ghost digits = unsigned_part(text@);
    let n: usize = text.len();
    let start: usize = if n > 0 && text[0] == 0x2b { 1 } else { 0 };
    if start == n {
        return None;
    }
    let limit: usize = usize::MAX / MEBIBYTE;
    let mut value: usize = 0;
    let mut i: usize = start;
    proof {
        assert(digits.take(0) =~= Seq::<u8>::empty());
    }
    while i < n
        invariant
            start <= i <= n,
            n == text@.len(),
            text@ == encode_utf8(mem_opt_str@),
            digits == unsigned_part(text@),
            digits.len() == n - start,
            forall|k: int| 0 <= k < digits.len() ==> digits[k] == text@[k + start],
            limit == usize::MAX / 1048576,
            value <= limit,
            value == decimal_value(digits.take(i - start)),
            forall|k: int| 0 <= k < i - start ==> is_digit(#[trigger] digits[k]),
        decreases n - i,
    {
        let b: u8 = text[i];
        if b < 0x30 || b > 0x39 {
            proof {
                assert(!is_digit(digits[i - start]));
            }
            return None;
        }
        let d: usize = (b - 0x30) as usize;
        proof {
            assert(digits.take(i - start + 1).drop_last() =~= digits.take(i - start));
            assert(digits.take(i - start + 1).last() == b);
        }
        if value > (limit - d) / 10 {
            proof {
                if all_digits(digits) {
                    lemma_decimal_value_grows(digits, i - start + 1);
                }
                assert(value * 10 + d > limit);
                assert(forall|v: int| v > limit ==> #[trigger] (v * 1048576) > usize::MAX) by (nonlinear_arith)
                    requires
                        limit == usize::MAX / 1048576,
                ;
            }
            return None;
        }
        value = value * 10 + d;
        i = i + 1;
    }
    proof {
        assert(digits.take(n - start) =~= digits);
        assert(value * 1048576 <= usize::MAX) by (nonlinear_arith)
            requires
                value <= limit,
                limit == usize::MAX / 1048576,
        ;
    }
    Some(value * MEBIBYTE)
}

/// The decimal digits of `n`, without leading zeros.
pub open spec fn decimal_text(n: nat) -> Seq<char>
    decreases n,
{
    if n < 10 {
        seq![((0x30 + n) as u8) as char]
    } else {
        decimal_text(n / 10).push(((0x30 + n % 10) as u8) as char)
    }
}

/// `text` behind as many zeros as bring it to a width of six.
pub open spec fn zero_padded(text: Seq<char>) -> Seq<char> {
    if text.len() < 6 {
        Seq::new((6 - text.len()) as nat, |i: int| '0') + text
    } else {
        text
    }
}

/// The text of the error counter: a label, the count in at least six
/// digits, four spaces.
pub open spec fn error_message(num_errors: u64) -> Seq<char> {
    seq!['E', 'r', 'r', 'o', 'r', 's', ':', ' '] + zero_padded(decimal_text(num_errors as nat))
        + seq![' ', ' ', ' ', ' ']
}

/// Formats the error counter.
///
/// Trusted: the body is one call of std's `format!`, with a `u64` in decimal
/// at width six, filled with zeros, between two fixed pieces of text.
#[verifier::external_body]
fn format_counter(num_errors: u64) -> (r: String)
    ensures
        r@ == error_message(num_errors),
{
    format!("Errors: {:06}    ", num_errors)
}

/// Writes the error counter for the progress display.
pub fn format_error_message(num_errors: u64) -> (r: String)
    ensures
        r@ == error_message(num_errors),
{
    format_counter(num_errors)
}

} // verus!
