//! What written bytes and numbers say when they are read.

use vstd::arithmetic::power::{lemma_pow0, pow};
use vstd::prelude::*;

use crate::text::{
    decimal, hash_hex, hex, hex_digit, hex_value, i32_to_lower_hex, lower_hex, padded_hex,
    twos_complement, u32_to_lower_hex, unhex,
};

verus! {

/// Whether a character is a decimal digit or one of the letters from `a` to `f`.
pub open spec fn is_lower_digit(digit: char) -> bool {
    '0' <= digit <= '9' || 'a' <= digit <= 'f'
}

/// Whether a text is made of such digits.
pub open spec fn are_lower_digits(text: Seq<char>) -> bool {
    forall|i: int| 0 <= i < text.len() ==> is_lower_digit(#[trigger] text[i])
}

/// What such a digit is worth.
pub open spec fn digit_worth(digit: char) -> nat {
    if digit <= '9' {
        (digit as int - '0' as int) as nat
    } else {
        (digit as int - 'a' as int + 10) as nat
    }
}

/// The number that digits stand for in a base, the highest digit first.
pub open spec fn read_number(text: Seq<char>, base: nat) -> nat
    decreases text.len(),
{
    if text.len() == 0 {
        0
    } else {
        read_number(text.drop_last(), base) * base + digit_worth(text.last())
    }
}

/// Each value below sixteen has its digit, and the digit is worth the value.
pub proof fn law_digit_is_worth_its_value(value: int)
    requires
        0 <= value < 16,
    ensures
        is_lower_digit(hex_digit(value)),
        digit_worth(hex_digit(value)) == value,
{
}

/// A digit is read as what it is worth, in either case; nothing else is read as a digit.
pub proof fn law_digits_are_read_in_either_case(digit: char)
    ensures
        is_lower_digit(digit) ==> hex_value(digit) == Some(digit_worth(digit) as int),
        'A' <= digit <= 'F' ==> hex_value(digit) == Some(digit as int - 'A' as int + 10),
        hex_value(digit) is Some <==> is_lower_digit(digit) || 'A' <= digit <= 'F',
{
}

/// Each byte is written as two lower-case digits that are worth the byte, in the order of the
/// bytes.
pub proof fn law_bytes_are_written_in_order(bytes: Seq<u8>, i: int)
    requires
        0 <= i < bytes.len(),
    ensures
        hex(bytes).len() == 2 * bytes.len(),
        is_lower_digit(hex(bytes)[2 * i]),
        is_lower_digit(hex(bytes)[2 * i + 1]),
        16 * digit_worth(hex(bytes)[2 * i]) + digit_worth(hex(bytes)[2 * i + 1]) == bytes[i],
{
    assert((2 * i) / 2 == i && (2 * i) % 2 == 0);
    assert((2 * i + 1) / 2 == i && (2 * i + 1) % 2 == 1);
    law_digit_is_worth_its_value(bytes[i] as int / 16);
    law_digit_is_worth_its_value(bytes[i] as int % 16);
}

/// A hash is written with its last byte first.
pub proof fn law_hash_is_written_backwards(hash: Seq<u8>, i: int)
    requires
        0 <= i < hash.len(),
    ensures
        hash_hex(hash).len() == 2 * hash.len(),
        are_lower_digits(hash_hex(hash)),
        16 * digit_worth(hash_hex(hash)[2 * i]) + digit_worth(hash_hex(hash)[2 * i + 1])
            == hash[hash.len() - 1 - i],
{
    let back = hash.reverse();
    law_bytes_are_written_in_order(back, i);
    assert forall|k: int| 0 <= k < hash_hex(hash).len() implies is_lower_digit(
        #[trigger] hash_hex(hash)[k],
    ) by {
        law_bytes_are_written_in_order(back, k / 2);
        assert(k == 2 * (k / 2) || k == 2 * (k / 2) + 1);
    }
}

/// A text is read as bytes if and only if it is an even number of digits; each pair of them
/// is worth its byte.
pub proof fn law_pairs_of_digits_are_read(text: Seq<char>)
    ensures
        unhex(text) is Some <==> text.len() % 2 == 0 && forall|i: int|
            0 <= i < text.len() ==> hex_value(#[trigger] text[i]) is Some,
        unhex(text) is Some ==> {
            &&& 2 * unhex(text)->0.len() == text.len()
            &&& forall|i: int|
                0 <= i < unhex(text)->0.len() ==> #[trigger] unhex(text)->0[i] == 16 * hex_value(
                    text[2 * i],
                )->0 + hex_value(text[2 * i + 1])->0
        },
{
    if unhex(text) is Some {
        assert forall|i: int| 0 <= i < unhex(text)->0.len() implies #[trigger] unhex(text)->0[i]
            == 16 * hex_value(text[2 * i])->0 + hex_value(text[2 * i + 1])->0 by {
            assert(hex_value(text[2 * i]) is Some);
            assert(hex_value(text[2 * i + 1]) is Some);
        }
    }
}

proof fn lemma_lower_hex_is_read_back(value: nat)
    ensures
        lower_hex(value).len() > 0,
        are_lower_digits(lower_hex(value)),
        read_number(lower_hex(value), 16) == value,
        value > 0 ==> lower_hex(value)[0] != '0',
        value == 0 ==> lower_hex(value).len() == 1,
    decreases value,
{
    let text = lower_hex(value);
    law_digit_is_worth_its_value((value % 16) as int);
    if value < 16 {
        assert(text.drop_last() =~= Seq::<char>::empty());
        assert(read_number(text.drop_last(), 16) == 0);
    } else {
        lemma_lower_hex_is_read_back(value / 16);
        assert(text.drop_last() =~= lower_hex(value / 16));
        assert(text[0] == lower_hex(value / 16)[0]);
    }
}

/// A number that is written in hexadecimal is read back as it was, and has no leading zero.
pub proof fn law_number_is_read_back(value: u32, text: String)
    requires
        call_ensures(u32_to_lower_hex, (value,), text),
    ensures
        are_lower_digits(text@),
        read_number(text@, 16) == value,
        value > 0 ==> text@[0] != '0',
        value == 0 ==> text@.len() == 1,
{
    lemma_lower_hex_is_read_back(value as nat);
}

/// A signed number is read back as the number of 32 bits that differs from it by a whole
/// multiple of 2^32.
pub proof fn law_signed_number_is_read_back(value: i32, text: String)
    requires
        call_ensures(i32_to_lower_hex, (value,), text),
    ensures
        are_lower_digits(text@),
        read_number(text@, 16) < 0x1_0000_0000,
        (read_number(text@, 16) - value) % 0x1_0000_0000 == 0,
        value != 0 ==> text@[0] != '0',
        value == 0 ==> text@.len() == 1,
{
    lemma_lower_hex_is_read_back(twos_complement(value));
}

/// The unsigned form of a signed number differs from it by a whole multiple of 2^32.
pub proof fn law_twos_complement_keeps_the_remainder(value: i32)
    ensures
        0 <= twos_complement(value) < 0x1_0000_0000,
        (twos_complement(value) - value) % 0x1_0000_0000 == 0,
{
}

/// What a number in lower-case hexadecimal is read as.
pub proof fn law_lower_hex_is_read_back(value: nat)
    ensures
        are_lower_digits(lower_hex(value)),
        read_number(lower_hex(value), 16) == value,
        value > 0 ==> lower_hex(value)[0] != '0',
        value == 0 ==> lower_hex(value).len() == 1,
{
    lemma_lower_hex_is_read_back(value);
}

/// A number that is written with a fixed number of digits is read back as it was, if it has
/// no more digits than that.
pub proof fn law_padded_number_is_read_back(value: nat, width: nat)
    requires
        value < pow(16, width),
    ensures
        padded_hex(value, width).len() == width,
        are_lower_digits(padded_hex(value, width)),
        read_number(padded_hex(value, width), 16) == value,
    decreases width,
{
    if width == 0 {
        lemma_pow0(16);
    } else {
        let text = padded_hex(value, width);
        reveal(pow);
        assert(pow(16, width) == 16 * pow(16, (width - 1) as nat));
        law_padded_number_is_read_back(value / 16, (width - 1) as nat);
        law_digit_is_worth_its_value((value % 16) as int);
        assert(text.drop_last() =~= padded_hex(value / 16, (width - 1) as nat));
    }
}

/// A number that is written in decimal is read back as it was.
pub proof fn law_decimal_number_is_read_back(value: nat)
    ensures
        read_number(decimal(value), 10) == value,
        value > 0 ==> decimal(value)[0] != '0',
        forall|i: int|
            0 <= i < decimal(value).len() ==> '0' <= #[trigger] decimal(value)[i] <= '9',
        decimal(value).len() > 0,
    decreases value,
{
    let text = decimal(value);
    if value < 10 {
        assert(text.drop_last() =~= Seq::<char>::empty());
        assert(read_number(text.drop_last(), 10) == 0);
    } else {
        law_decimal_number_is_read_back(value / 10);
        assert(text.drop_last() =~= decimal(value / 10));
        assert(text[0] == decimal(value / 10)[0]);
    }
}

} // verus!
