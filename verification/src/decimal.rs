//! Signed decimal numbers in text.

use vstd::prelude::*;

verus! {

/// `0` to `9`.
pub open spec fn is_digit(c: char) -> bool {
    '0' <= c && c <= '9'
}

/// The number that a decimal digit stands for.
pub open spec fn digit_value(c: char) -> int {
    c as int - '0' as int
}

/// Whether the text holds decimal digits only.
pub open spec fn all_digits(text: Seq<char>) -> bool {
    forall|i: int| 0 <= i < text.len() ==> is_digit(#[trigger] text[i])
}

/// The number that a string of decimal digits stands for, most significant
/// digit first; 0 for the empty string.
pub open spec fn digits_value(digits: Seq<char>) -> int
    decreases digits.len(),
{
    if digits.len() == 0 {
        0
    } else {
        digits_value(digits.drop_last()) * 10 + digit_value(digits.last())
    }
}

/// Whether the text starts with a sign.
pub open spec fn has_sign(text: Seq<char>) -> bool {
    text.len() > 0 && (text[0] == '-' || text[0] == '+')
}

/// The text without its sign.
pub open spec fn unsigned_part(text: Seq<char>) -> Seq<char> {
    if has_sign(text) {
        text.skip(1)
    } else {
        text
    }
}

/// The integer that the text is a decimal numeral of: an optional `+` or
/// `-`, then one or more digits and nothing else. `None` for any other text.
pub open spec fn spec_parse_decimal(text: Seq<char>) -> Option<int> {
    let digits = unsigned_part(text);
    if digits.len() == 0 || !all_digits(digits) {
        None
    } else if text[0] == '-' {
        Some(-digits_value(digits))
    } else {
        Some(digits_value(digits))
    }
}

/// The `isize` that the text is a decimal numeral of; `None` where the text
/// is no numeral or the number does not fit.
pub open spec fn spec_parse_isize(text: Seq<char>) -> Option<isize> {
    match spec_parse_decimal(text) {
        Some(value) => if isize::MIN <= value <= isize::MAX {
            Some(value as isize)
        } else {
            None
        },
        None => None,
    }
}

/// A numeral's value does not shrink when digits are appended.
pub proof fn lemma_digits_value_grows(digits: Seq<char>, shorter: int)
    requires
        all_digits(digits),
        0 <= shorter <= digits.len(),
    ensures
        0 <= digits_value(digits.take(shorter)) <= digits_value(digits),
    decreases digits.len() - shorter,
{
    if shorter == digits.len() {
        assert(digits.take(shorter) == digits);
        lemma_digits_value_nonnegative(digits);
    } else {
        lemma_digits_value_grows(digits, shorter + 1);
        let longer = digits.take(shorter + 1);
        assert(longer.drop_last() == digits.take(shorter));
        assert(is_digit(digits[shorter]));
        assert(longer.last() == digits[shorter]);
        lemma_digits_value_nonnegative(digits.take(shorter));
    }
}

/// No string of digits stands for a negative number.
pub proof fn lemma_digits_value_nonnegative(digits: Seq<char>)
    requires
        all_digits(digits),
    ensures
        0 <= digits_value(digits),
    decreases digits.len(),
{
    if digits.len() > 0 {
        assert(is_digit(digits.last()));
        lemma_digits_value_nonnegative(digits.drop_last());
    }
}

/// Reads a signed decimal numeral.
pub fn parse_isize(text: &str) -> (parsed: Option<isize>)
    ensures
        parsed == spec_parse_isize(text@),
{
    let length: usize = text.unicode_len();
    if length == 0 {
        return None;
    }
    let first: char = text.get_char(0);
    let negative: bool = first == '-';
    let start: usize = if first == '-' || first == '+' {
        1
    } else {
        0
    };
    if start == length {
        return None;
    }
    let ghost digits = unsigned_part(text@);
    assert(digits == text@.skip(start as int));
    // One more than the largest isize: the size of the smallest.
    let limit: u128 = isize::MAX as u128 + 1;
    let mut value: u128 = 0;
    let mut position: usize = start;
    while position < length
        invariant
            start <= position <= length,
            length == text@.len(),
            digits == text@.skip(start as int),
            digits == unsigned_part(text@),
            limit == isize::MAX + 1,
            all_digits(digits.take(position - start)),
            value == digits_value(digits.take(position - start)),
            value <= limit,
        decreases length - position,
    {
        let c: char = text.get_char(position);
        assert(digits[position - start] == c);
        if !(c >= '0' && c <= '9') {
            assert(!is_digit(digits[position - start]));
            assert(!all_digits(digits));
            return None;
        }
        let digit: u128 = (c as u32 - '0' as u32) as u128;
        proof {
            let longer = digits.take(position - start + 1);
            assert(longer.drop_last() == digits.take(position - start));
            assert(longer.last() == c);
            assert forall|i: int| 0 <= i < longer.len() implies is_digit(#[trigger] longer[i]) by {
                if i < position - start {
                    assert(longer[i] == digits.take(position - start)[i]);
                }
            }
        }
        value = value * 10 + digit;
        position += 1;
        if value > limit {
            proof {
                if all_digits(digits) {
                    lemma_digits_value_grows(digits, position - start);
                    assert(digits_value(digits) > isize::MAX + 1);
                    assert(-digits_value(digits) < isize::MIN);
                }
            }
            return None;
        }
    }
    assert(digits.take(position - start) == digits);
    if negative {
        if value == limit {
            Some(isize::MIN)
        } else {
            Some(-(value as isize))
        }
    } else if value == limit {
        None
    } else {
        Some(value as isize)
    }
}

} // verus!
