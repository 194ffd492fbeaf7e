//! Text that the library writes and reads: hexadecimal, decimal numbers and
//! the display form of an address. Text is held as a sequence of characters.

use vstd::prelude::*;
use vstd::string::*;
use alloy_primitives::hex::FromHexError;

verus! {

/// The error of the hexadecimal decoder of `alloy-primitives`.
#[verifier::external_type_specification]
#[verifier::external_body]
pub struct ExFromHexError(alloy_primitives::hex::FromHexError);

/// The lower-case hexadecimal digit of a value below sixteen.
pub open spec fn hex_digit(nibble: u8) -> char {
    if nibble < 10 {
        (48 + nibble) as char
    } else {
        (87 + nibble) as char
    }
}

/// Lower-case hexadecimal text of `data`: two digits for each byte, the high
/// half first.
pub open spec fn spec_hex(data: Seq<u8>) -> Seq<char> {
    Seq::new(
        2 * data.len(),
        |i: int|
            if i % 2 == 0 {
                hex_digit(data[i / 2] / 16)
            } else {
                hex_digit(data[i / 2] % 16)
            },
    )
}

/// The display form of a 20-byte address: `0x` and forty hexadecimal digits
/// whose letters carry the mixed-case checksum.
pub uninterp spec fn checksum_text(address: Seq<u8>) -> Seq<char>;

/// The value of a hexadecimal digit, in either case.
pub open spec fn hex_value(c: char) -> Option<u8> {
    let code = c as int;
    if 48 <= code <= 57 {
        Some((code - 48) as u8)
    } else if 97 <= code <= 102 {
        Some((code - 87) as u8)
    } else if 65 <= code <= 70 {
        Some((code - 55) as u8)
    } else {
        None
    }
}

/// `text` without a `0x` or `0X` at its start.
pub open spec fn without_hex_prefix(text: Seq<char>) -> Seq<char> {
    if text.len() >= 2 && text[0] == '0' && (text[1] == 'x' || text[1] == 'X') {
        text.skip(2)
    } else {
        text
    }
}

/// The bytes that a hexadecimal text stands for: after an optional prefix,
/// two digits for each byte, the high half first. A text of odd length, or
/// with a character that is no hexadecimal digit, stands for nothing.
pub open spec fn hex_decoded(text: Seq<char>) -> Option<Seq<u8>> {
    let digits = without_hex_prefix(text);
    if text.len() % 2 != 0 || exists|i: int|
        0 <= i < digits.len() && hex_value(#[trigger] digits[i]) is None {
        None
    } else {
        Some(
            Seq::new(
                digits.len() / 2,
                |i: int| (16 * hex_value(digits[2 * i])->0 + hex_value(digits[2 * i + 1])->0) as u8,
            ),
        )
    }
}

/// Whether `c` is a decimal digit.
pub open spec fn is_decimal_digit(c: char) -> bool {
    48 <= c as int <= 57
}

/// The number that a text of decimal digits stands for.
pub open spec fn decimal_value(digits: Seq<char>) -> nat
    decreases digits.len(),
{
    if digits.len() == 0 {
        0
    } else {
        (10 * decimal_value(digits.drop_last()) + (digits.last() as int - 48)) as nat
    }
}

/// The number below 256 that a decimal text stands for: an optional `+`,
/// then at least one digit and nothing but digits. Any other text, or a
/// number of 256 or more, stands for nothing.
pub open spec fn parsed_u8(text: Seq<char>) -> Option<u8> {
    let digits = if text.len() > 0 && text[0] == '+' {
        text.skip(1)
    } else {
        text
    };
    if digits.len() == 0 || (exists|i: int|
        0 <= i < digits.len() && !is_decimal_digit(#[trigger] digits[i])) || decimal_value(digits)
        > 255 {
        None
    } else {
        Some(decimal_value(digits) as u8)
    }
}

/// `hex::encode` of `alloy-primitives`. Trusted: it writes each byte as two
/// lower-case hexadecimal digits, in order, and nothing else.
#[verifier::external_body]
pub(crate) fn hex_text(data: &[u8]) -> (text: Vec<char>)
    ensures
        text@ == spec_hex(data@),
{
    alloy_primitives::hex::encode(data).chars().collect()
}

/// `Address::to_checksum` of `alloy-primitives`, without a chain id: the text
/// that the address displays as. Trusted: the text depends on the twenty
/// bytes alone. Nothing more is claimed of it.
#[verifier::external_body]
pub(crate) fn address_text(address: &[u8; 20]) -> (text: Vec<char>)
    ensures
        text@ == checksum_text(address@),
{
    alloy_primitives::Address::new(*address).to_checksum(None).chars().collect()
}

/// `hex::decode` of `alloy-primitives`. Trusted: it fails on a text of odd
/// length or with a character that is no hexadecimal digit, and else gives
/// one byte for each two digits after an optional `0x`.
#[verifier::external_body]
pub(crate) fn hex_decode(text: &str) -> (bytes: Result<Vec<u8>, FromHexError>)
    ensures
        match bytes {
            Ok(found) => hex_decoded(text@) == Some(found@),
            Err(_) => hex_decoded(text@) is None,
        },
{
    alloy_primitives::hex::decode(text)
}

/// `str::parse::<u8>` of std. Trusted: it reads an optional `+` and then
/// decimal digits only, and fails on an empty text, on any other character
/// and on a number that does not fit.
#[verifier::external_body]
pub(crate) fn parse_u8(text: &str) -> (value: Option<u8>)
    ensures
        value == parsed_u8(text@),
{
    text.parse::<u8>().ok()
}

/// The character of a decimal digit.
pub open spec fn digit_char(digit: nat) -> char {
    (48 + digit) as char
}

/// Decimal text of `value`, without leading zeros.
pub open spec fn spec_decimal(value: nat) -> Seq<char>
    decreases value,
{
    if value < 10 {
        seq![digit_char(value)]
    } else {
        spec_decimal(value / 10).push(digit_char(value % 10))
    }
}

fn digit(value: u8) -> (c: char)
    requires
        value < 10,
    ensures
        c == digit_char(value as nat),
{
    (48 + value) as char
}

/// Appends the decimal text of `value` to `out`.
pub fn append_decimal(out: &mut Vec<char>, value: u8)
    ensures
        final(out)@ == old(out)@ + spec_decimal(value as nat),
{
    reveal_with_fuel(spec_decimal, 3);
    if value >= 100 {
        out.push(digit(value / 100));
        out.push(digit(value / 10 % 10));
        out.push(digit(value % 10));
        assert(spec_decimal(value as nat) =~= seq![
            digit_char((value / 100) as nat),
            digit_char((value / 10 % 10) as nat),
            digit_char((value % 10) as nat),
        ]);
    } else if value >= 10 {
        out.push(digit(value / 10));
        out.push(digit(value % 10));
        assert(spec_decimal(value as nat) =~= seq![
            digit_char((value / 10) as nat),
            digit_char((value % 10) as nat),
        ]);
    } else {
        out.push(digit(value));
    }
    assert(out@ =~= old(out)@ + spec_decimal(value as nat));
}

/// Appends the characters of `text` to `out`.
pub fn append_text(out: &mut Vec<char>, text: &str)
    ensures
        final(out)@ == old(out)@ + text@,
{
    let len = text.unicode_len();
    let mut i: usize = 0;
    while i < len
        invariant
            i <= len,
            len == text@.len(),
            out@ == old(out)@ + text@.subrange(0, i as int),
        decreases len - i,
    {
        out.push(text.get_char(i));
        i += 1;
        assert(out@ =~= old(out)@ + text@.subrange(0, i as int));
    }
    assert(text@.subrange(0, text@.len() as int) =~= text@);
}

/// Appends the characters of `more` to `out`.
pub fn append_chars(out: &mut Vec<char>, more: &Vec<char>)
    ensures
        final(out)@ == old(out)@ + more@,
{
    let mut i: usize = 0;
    while i < more.len()
        invariant
            i <= more.len(),
            out@ == old(out)@ + more@.subrange(0, i as int),
        decreases more.len() - i,
    {
        out.push(more[i]);
        i += 1;
        assert(out@ =~= old(out)@ + more@.subrange(0, i as int));
    }
    assert(more@.subrange(0, more@.len() as int) =~= more@);
}

} // verus!
