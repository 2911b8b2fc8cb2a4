//! Programs written as hexadecimal bytes separated by white space.

use vstd::prelude::*;

verus! {

/// The first token of a program text that is no byte, counted from 0.
#[derive(Clone, Copy, Debug, PartialEq, Eq, Structural)]
pub struct ProgramError {
    pub token: usize,
}

/// Space, tab, line feed, vertical tab, form feed and carriage return.
pub open spec fn is_narrow_space(byte: u8) -> bool {
    byte == 0x20 || (0x09 <= byte && byte <= 0x0D)
}

/// The two bytes that encode U+0085 or U+00A0.
pub open spec fn is_medium_space(first: u8, second: u8) -> bool {
    first == 0xC2 && (second == 0x85 || second == 0xA0)
}

/// The three bytes that encode U+1680, U+2000 to U+200A, U+2028, U+2029,
/// U+202F, U+205F or U+3000.
pub open spec fn is_wide_space(first: u8, second: u8, third: u8) -> bool {
    ||| first == 0xE1 && second == 0x9A && third == 0x80
    ||| first == 0xE2 && second == 0x80 && ((0x80 <= third && third <= 0x8A) || third == 0xA8
        || third == 0xA9 || third == 0xAF)
    ||| first == 0xE2 && second == 0x81 && third == 0x9F
    ||| first == 0xE3 && second == 0x80 && third == 0x80
}

/// The number of bytes of the white space character whose UTF-8 encoding
/// starts at `at`; 0 where none starts there. White space is what Unicode
/// calls so: the six of ASCII and the nineteen beyond it.
pub open spec fn space_len(text: Seq<u8>, at: int) -> int {
    if at < 0 || at >= text.len() {
        0
    } else if is_narrow_space(text[at]) {
        1
    } else if at + 1 < text.len() && is_medium_space(text[at], text[at + 1]) {
        2
    } else if at + 2 < text.len() && is_wide_space(text[at], text[at + 1], text[at + 2]) {
        3
    } else {
        0
    }
}

/// `0` to `9`, `A` to `F` and `a` to `f`.
pub open spec fn is_hex_digit(byte: u8) -> bool {
    (0x30 <= byte && byte <= 0x39) || (0x41 <= byte && byte <= 0x46) || (0x61 <= byte && byte
        <= 0x66)
}

/// The number that a hexadecimal digit stands for, in either case.
pub open spec fn hex_digit_value(byte: u8) -> int {
    if byte <= 0x39 {
        byte - 0x30
    } else if byte <= 0x46 {
        byte - 0x41 + 10
    } else {
        byte - 0x61 + 10
    }
}

/// Whether the bytes are hexadecimal digits only.
pub open spec fn all_hex_digits(digits: Seq<u8>) -> bool {
    forall|i: int| 0 <= i < digits.len() ==> is_hex_digit(#[trigger] digits[i])
}

/// The number that a string of hexadecimal digits stands for, most
/// significant digit first; 0 for the empty string.
pub open spec fn hex_value(digits: Seq<u8>) -> int
    decreases digits.len(),
{
    if digits.len() == 0 {
        0
    } else {
        hex_value(digits.drop_last()) * 16 + hex_digit_value(digits.last())
    }
}

/// A token without its leading `+`, if it has one.
pub open spec fn hex_digits_of(token: Seq<u8>) -> Seq<u8> {
    if token.len() > 0 && token[0] == 0x2B {
        token.skip(1)
    } else {
        token
    }
}

/// The byte that a token is a hexadecimal numeral of: an optional `+`, then
/// one or more hexadecimal digits whose value is at most 255. `None` for
/// any other token.
pub open spec fn spec_parse_hex_byte(token: Seq<u8>) -> Option<u8> {
    let digits = hex_digits_of(token);
    if digits.len() == 0 || !all_hex_digits(digits) || hex_value(digits) > 255 {
        None
    } else {
        Some(hex_value(digits) as u8)
    }
}

/// The end of the run of bytes that starts at `from` and in which no white
/// space starts.
pub open spec fn token_end(text: Seq<u8>, from: int) -> int
    decreases text.len() - from,
{
    if 0 <= from < text.len() && space_len(text, from) == 0 {
        token_end(text, from + 1)
    } else {
        from
    }
}

/// A run without white space ends after its start, within the text, and
/// before white space or at the end of the text.
pub proof fn lemma_token_end(text: Seq<u8>, from: int)
    requires
        0 <= from <= text.len(),
    ensures
        from <= token_end(text, from) <= text.len(),
        from < text.len() && space_len(text, from) == 0 ==> from < token_end(text, from),
        forall|i: int| from <= i < token_end(text, from) ==> #[trigger] space_len(text, i) == 0,
        token_end(text, from) < text.len() ==> space_len(text, token_end(text, from)) > 0,
    decreases text.len() - from,
{
    if from < text.len() && space_len(text, from) == 0 {
        lemma_token_end(text, from + 1);
    }
}

/// The tokens of the text from `from` on: the maximal runs without white
/// space, in order.
pub open spec fn tokens_from(text: Seq<u8>, from: int) -> Seq<Seq<u8>>
    decreases text.len() - from,
{
    if from < 0 || from >= text.len() {
        Seq::empty()
    } else if space_len(text, from) > 0 {
        tokens_from(text, from + space_len(text, from))
    } else {
        proof {
            lemma_token_end(text, from);
        }
        seq![text.subrange(from, token_end(text, from))] + tokens_from(
            text,
            token_end(text, from),
        )
    }
}

/// The tokens of a program text.
pub open spec fn tokens(text: Seq<u8>) -> Seq<Seq<u8>> {
    tokens_from(text, 0)
}

/// The bytes that the tokens stand for, or the index of the first token
/// that is no byte.
pub open spec fn bytes_of(tokens: Seq<Seq<u8>>) -> Result<Seq<u8>, nat>
    decreases tokens.len(),
{
    if tokens.len() == 0 {
        Ok(Seq::empty())
    } else {
        match bytes_of(tokens.drop_last()) {
            Err(index) => Err(index),
            Ok(bytes) => match spec_parse_hex_byte(tokens.last()) {
                Some(byte) => Ok(bytes.push(byte)),
                None => Err((tokens.len() - 1) as nat),
            },
        }
    }
}

/// The program that a text holds: its tokens read as bytes.
pub open spec fn spec_parse_program(text: Seq<u8>) -> Result<Seq<u8>, nat> {
    bytes_of(tokens(text))
}

/// Once a token is no byte, no token after it changes the outcome.
pub proof fn lemma_bytes_of_error_stays(tokens: Seq<Seq<u8>>, more: Seq<Seq<u8>>)
    requires
        bytes_of(tokens) is Err,
    ensures
        bytes_of(tokens + more) == bytes_of(tokens),
    decreases more.len(),
{
    if more.len() == 0 {
        assert(tokens + more == tokens);
    } else {
        lemma_bytes_of_error_stays(tokens, more.drop_last());
        assert((tokens + more).drop_last() == tokens + more.drop_last());
    }
}

/// A hexadecimal numeral's value does not shrink when digits are appended.
pub proof fn lemma_hex_value_grows(digits: Seq<u8>, shorter: int)
    requires
        all_hex_digits(digits),
        0 <= shorter <= digits.len(),
    ensures
        0 <= hex_value(digits.take(shorter)) <= hex_value(digits),
    decreases digits.len() - shorter,
{
    if shorter == digits.len() {
        assert(digits.take(shorter) == digits);
        lemma_hex_value_nonnegative(digits);
    } else {
        lemma_hex_value_grows(digits, shorter + 1);
        let longer = digits.take(shorter + 1);
        assert(longer.drop_last() == digits.take(shorter));
        assert(is_hex_digit(digits[shorter]));
        assert(longer.last() == digits[shorter]);
        lemma_hex_value_nonnegative(digits.take(shorter));
    }
}

/// No string of hexadecimal digits stands for a negative number.
pub proof fn lemma_hex_value_nonnegative(digits: Seq<u8>)
    requires
        all_hex_digits(digits),
    ensures
        0 <= hex_value(digits),
    decreases digits.len(),
{
    if digits.len() > 0 {
        assert(is_hex_digit(digits.last()));
        lemma_hex_value_nonnegative(digits.drop_last());
    }
}

/// Reads the token `text[from..to]` as a byte.
pub fn parse_hex_byte(text: &[u8], from: usize, to: usize) -> (parsed: Option<u8>)
    requires
        from <= to <= text@.len(),
    ensures
        parsed == spec_parse_hex_byte(text@.subrange(from as int, to as int)),
{
    let ghost token = text@.subrange(from as int, to as int);
    if from == to {
        return None;
    }
    assert(token[0] == text@[from as int]);
    let start: usize = if text[from] == 0x2B {
        from + 1
    } else {
        from
    };
    if start == to {
        return None;
    }
    let ghost digits = hex_digits_of(token);
    assert(digits == text@.subrange(start as int, to as int));
    let mut value: u32 = 0;
    let mut position: usize = start;
    while position < to
        invariant
            from <= start <= position <= to <= text@.len(),
            token == text@.subrange(from as int, to as int),
            digits == text@.subrange(start as int, to as int),
            digits == hex_digits_of(token),
            all_hex_digits(digits.take(position - start)),
            value == hex_value(digits.take(position - start)),
            value <= 255,
        decreases to - position,
    {
        let byte: u8 = text[position];
        assert(digits[position - start] == byte);
        let digit: u32 = if 0x30 <= byte && byte <= 0x39 {
            (byte - 0x30) as u32
        } else if 0x41 <= byte && byte <= 0x46 {
            (byte - 0x41 + 10) as u32
        } else if 0x61 <= byte && byte <= 0x66 {
            (byte - 0x61 + 10) as u32
        } else {
            assert(!is_hex_digit(digits[position - start]));
            assert(!all_hex_digits(digits));
            return None;
        };
        proof {
            let longer = digits.take(position - start + 1);
            assert(longer.drop_last() == digits.take(position - start));
            assert(longer.last() == byte);
            assert forall|i: int| 0 <= i < longer.len() implies is_hex_digit(
                #[trigger] longer[i],
            ) by {
                if i < position - start {
                    assert(longer[i] == digits.take(position - start)[i]);
                }
            }
        }
        value = value * 16 + digit;
        position += 1;
        if value > 255 {
            proof {
                if all_hex_digits(digits) {
                    lemma_hex_value_grows(digits, position - start);
                    assert(hex_value(digits) > 255);
                }
            }
            return None;
        }
    }
    assert(digits.take(position - start) == digits);
    Some(value as u8)
}

/// The number of bytes of the white space character that starts at `at`; 0
/// where none starts there.
pub fn space_len_at(text: &[u8], at: usize) -> (length: usize)
    requires
        at < text@.len(),
    ensures
        length == space_len(text@, at as int),
{
    let first: u8 = text[at];
    if first == 0x20 || (0x09 <= first && first <= 0x0D) {
        1
    } else if text.len() - at >= 2 && first == 0xC2 && (text[at + 1] == 0x85 || text[at + 1]
        == 0xA0) {
        2
    } else if text.len() - at >= 3 {
        let second: u8 = text[at + 1];
        let third: u8 = text[at + 2];
        if first == 0xE1 && second == 0x9A && third == 0x80 {
            3
        } else if first == 0xE2 && second == 0x80 && ((0x80 <= third && third <= 0x8A) || third
            == 0xA8 || third == 0xA9 || third == 0xAF) {
            3
        } else if first == 0xE2 && second == 0x81 && third == 0x9F {
            3
        } else if first == 0xE3 && second == 0x80 && third == 0x80 {
            3
        } else {
            0
        }
    } else {
        0
    }
}

/// Reads a program text: hexadecimal bytes separated by white space.
pub fn parse_program(text: &[u8]) -> (program: Result<Vec<u8>, ProgramError>)
    ensures
        match program {
            Ok(bytes) => spec_parse_program(text@) == Ok::<Seq<u8>, nat>(bytes@),
            Err(error) => spec_parse_program(text@) == Err::<Seq<u8>, nat>(error.token as nat),
        },
{
    let mut bytes: Vec<u8> = Vec::new();
    let ghost mut done: Seq<Seq<u8>> = Seq::empty();
    let mut position: usize = 0;
    while position < text.len()
        invariant
            position <= text@.len(),
            tokens(text@) == done + tokens_from(text@, position as int),
            bytes_of(done) == Ok::<Seq<u8>, nat>(bytes@),
            done.len() == bytes@.len(),
            bytes@.len() <= position,
        decreases text@.len() - position,
    {
        let space: usize = space_len_at(text, position);
        if space > 0 {
            position += space;
        } else {
            let start: usize = position;
            let mut end: usize = position + 1;
            proof {
                lemma_token_end(text@, start as int);
            }
            while end < text.len() && space_len_at(text, end) == 0
                invariant
                    start < end <= text@.len(),
                    token_end(text@, start as int) == token_end(text@, end as int),
                decreases text@.len() - end,
            {
                end += 1;
            }
            assert(token_end(text@, start as int) == end);
            let ghost token = text@.subrange(start as int, end as int);
            let ghost rest = tokens_from(text@, end as int);
            assert(tokens_from(text@, start as int) == seq![token] + rest);
            assert(done + (seq![token] + rest) == done.push(token) + rest);
            assert(done.push(token).drop_last() == done);
            match parse_hex_byte(text, start, end) {
                Some(value) => {
                    bytes.push(value);
                    proof {
                        done = done.push(token);
                    }
                    position = end;
                },
                None => {
                    proof {
                        lemma_bytes_of_error_stays(done.push(token), rest);
                    }
                    return Err(ProgramError { token: bytes.len() });
                },
            }
        }
    }
    assert(done + tokens_from(text@, position as int) == done);
    Ok(bytes)
}

} // verus!
