//! Comparing and copying strings by the characters they hold.

use vstd::prelude::*;
use vstd::string::StringExecFns;
use vstd::string::StringSliceAdditionalSpecFns;
use vstd::utf8::encode_utf8_decode_utf8;

verus! {

/// Whether `a` and `b` hold the same characters.
pub fn text_eq(a: &str, b: &str) -> (same: bool)
    ensures
        same == (a@ == b@),
{
    let x = a.as_bytes();
    let y = b.as_bytes();
    proof {
        // Two strings with the same bytes decode to the same characters.
        encode_utf8_decode_utf8(a@);
        encode_utf8_decode_utf8(b@);
    }
    if x.len() != y.len() {
        return false;
    }
    let mut i: usize = 0;
    while i < x.len()
        invariant
            i <= x.len(),
            x.len() == y.len(),
            x@ == a.spec_bytes(),
            y@ == b.spec_bytes(),
            forall|j: int| 0 <= j < i ==> x@[j] == y@[j],
        decreases x.len() - i,
    {
        if x[i] != y[i] {
            return false;
        }
        i += 1;
    }
    assert(x@ =~= y@);
    true
}

/// An owned copy of `s`.
pub fn owned(s: &str) -> (copy: String)
    ensures
        copy@ == s@,
{
    String::from_str(s)
}

/// Whether `part` stands somewhere in `text`, character by character.
pub open spec fn contains_text(text: Seq<char>, part: Seq<char>) -> bool {
    exists|at: int|
        0 <= at && at + part.len() <= text.len() && #[trigger] text.subrange(
            at,
            at + part.len(),
        ) == part
}

/// The characters of each string in a list.
pub open spec fn texts(list: Seq<String>) -> Seq<Seq<char>> {
    Seq::new(list.len(), |i: int| list[i]@)
}

/// Whether `c` is one of the ten decimal digits.
pub open spec fn is_digit(c: char) -> bool {
    '0' <= c <= '9'
}

/// Whether every character of `digits` is a decimal digit.
pub open spec fn all_digits(digits: Seq<char>) -> bool {
    forall|i: int| 0 <= i < digits.len() ==> is_digit(#[trigger] digits[i])
}

/// The number that a run of decimal digits writes.
pub open spec fn decimal_value(digits: Seq<char>) -> nat
    decreases digits.len(),
{
    if digits.len() == 0 {
        0
    } else {
        (decimal_value(digits.drop_last()) * 10 + (digits.last() as u32 - '0' as u32)) as nat
    }
}

/// A text without the `+` that may stand at its front.
pub open spec fn unsigned_part(text: Seq<char>) -> Seq<char> {
    if text.len() > 0 && text[0] == '+' {
        text.drop_first()
    } else {
        text
    }
}

/// The number that a text writes in decimal: one digit or more, after at
/// most one `+`, and a value that a `u32` holds. Anything else writes none.
pub open spec fn decimal_u32(text: Seq<char>) -> Option<u32> {
    let digits = unsigned_part(text);
    if digits.len() > 0 && all_digits(digits) && decimal_value(digits) <= u32::MAX {
        Some(decimal_value(digits) as u32)
    } else {
        None
    }
}

/// A run of digits writes no less than any of its fronts does.
proof fn lemma_decimal_value_grows(digits: Seq<char>, front: int)
    requires
        all_digits(digits),
        0 <= front <= digits.len(),
    ensures
        decimal_value(digits.take(front)) <= decimal_value(digits),
    decreases digits.len() - front,
{
    if front < digits.len() {
        let longer = digits.take(front + 1);
        assert(longer.drop_last() == digits.take(front));
        assert(is_digit(digits[front]));
        lemma_decimal_value_grows(digits, front + 1);
    } else {
        assert(digits.take(front) == digits);
    }
}

/// Reads a `u32` written in decimal, as `str::parse` does.
pub fn parse_u32(text: &str) -> (number: Option<u32>)
    ensures
        number == decimal_u32(text@),
{
    broadcast use vstd::string::is_ascii_spec_bytes;

    let ghost digits = unsigned_part(text@);
    if !text.is_ascii() {
        proof {
            let i = choose|i: int|
                0 <= i < text@.len() && !('\0' <= #[trigger] text@[i] <= '\u{7f}');
            if digits.len() > 0 && all_digits(digits) {
                if text@[0] == '+' {
                    assert(is_digit(digits[i - 1]));
                } else {
                    assert(is_digit(digits[i]));
                }
            }
        }
        return None;
    }
    let bytes = text.as_bytes();
    assert(bytes@.len() == text@.len());
    assert(forall|i: int| 0 <= i < text@.len() ==> bytes@[i] == text@[i] as u8);
    let start: usize = if bytes.len() > 0 && bytes[0] == 0x2b {
        1
    } else {
        0
    };
    assert(digits == text@.skip(start as int));
    if start == bytes.len() {
        return None;
    }
    let mut value: u64 = 0;
    let mut i: usize = start;
    while i < bytes.len()
        invariant
            start <= i <= bytes.len(),
            bytes@.len() == text@.len(),
            vstd::utf8::is_ascii_chars(text@),
            forall|j: int| 0 <= j < text@.len() ==> bytes@[j] == text@[j] as u8,
            digits == text@.skip(start as int),
            digits == unsigned_part(text@),
            all_digits(digits.take(i - start)),
            value == decimal_value(digits.take(i - start)),
            value <= u32::MAX,
        decreases bytes.len() - i,
    {
        let byte = bytes[i];
        let ghost read = digits.take(i - start);
        let ghost longer = digits.take(i - start + 1);
        assert(longer.drop_last() == read);
        assert(longer.last() == text@[i as int]);
        assert(digits[i - start] == text@[i as int]);
        assert('\0' <= text@[i as int] <= '\u{7f}');
        if byte < 0x30 || byte > 0x39 {
            assert(!is_digit(digits[i - start]));
            return None;
        }
        value = value * 10 + (byte - 0x30) as u64;
        assert(value == decimal_value(longer));
        if value > 0xffff_ffff {
            proof {
                if all_digits(digits) {
                    lemma_decimal_value_grows(digits, i - start + 1);
                }
            }
            return None;
        }
        i += 1;
    }
    assert(digits.take(i - start) == digits);
    Some(value as u32)
}

} // verus!
