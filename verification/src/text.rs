//! How bytes and numbers are written as text: hexadecimal, and decimal ports.

use bitcoin::hashes::hex::{FromHex, ToHex};
use vstd::prelude::*;
use vstd::string::StringExecFns;

verus! {

/// The lower-case hexadecimal digit of a value below sixteen.
pub open spec fn hex_digit(value: int) -> char {
    if value < 10 {
        (('0' as int) + value) as char
    } else {
        (('a' as int) + value - 10) as char
    }
}

/// The value of a hexadecimal digit of either case, if the character is one.
pub open spec fn hex_value(digit: char) -> Option<int> {
    if '0' <= digit <= '9' {
        Some(digit as int - '0' as int)
    } else if 'a' <= digit <= 'f' {
        Some(digit as int - 'a' as int + 10)
    } else if 'A' <= digit <= 'F' {
        Some(digit as int - 'A' as int + 10)
    } else {
        None
    }
}

/// Two lower-case digits for each byte, the high half first.
pub open spec fn hex(bytes: Seq<u8>) -> Seq<char> {
    Seq::new(
        2 * bytes.len(),
        |i: int|
            hex_digit(
                if i % 2 == 0 {
                    bytes[i / 2] as int / 16
                } else {
                    bytes[i / 2] as int % 16
                },
            ),
    )
}

/// Whether a text is an even number of hexadecimal digits and nothing else.
pub open spec fn is_hex(text: Seq<char>) -> bool {
    &&& text.len() % 2 == 0
    &&& forall|i: int| 0 <= i < text.len() ==> hex_value(#[trigger] text[i]) is Some
}

/// The bytes that a hexadecimal text stands for.
pub open spec fn unhex(text: Seq<char>) -> Option<Seq<u8>> {
    if is_hex(text) {
        Some(
            Seq::new(
                text.len() / 2,
                |i: int| (16 * hex_value(text[2 * i])->0 + hex_value(text[2 * i + 1])->0) as u8,
            ),
        )
    } else {
        None
    }
}

/// A double-SHA256 hash is shown with its last byte first.
pub open spec fn hash_hex(hash: Seq<u8>) -> Seq<char> {
    hex(hash.reverse())
}

/// A number in lower-case hexadecimal without leading zeros.
pub open spec fn lower_hex(value: nat) -> Seq<char>
    decreases value,
{
    if value < 16 {
        seq![hex_digit(value as int)]
    } else {
        lower_hex(value / 16).push(hex_digit((value % 16) as int))
    }
}

/// A signed number of 32 bits, as the unsigned one of the same bits.
pub open spec fn twos_complement(value: i32) -> nat {
    if value >= 0 {
        value as nat
    } else {
        (value + 0x1_0000_0000) as nat
    }
}

/// The last `width` lower-case hexadecimal digits of a number, leading zeros included.
pub open spec fn padded_hex(value: nat, width: nat) -> Seq<char>
    decreases width,
{
    if width == 0 {
        seq![]
    } else {
        padded_hex(value / 16, (width - 1) as nat).push(hex_digit((value % 16) as int))
    }
}

/// A number in decimal without leading zeros.
pub open spec fn decimal(value: nat) -> Seq<char>
    decreases value,
{
    if value < 10 {
        seq![hex_digit(value as int)]
    } else {
        decimal(value / 10).push(hex_digit((value % 10) as int))
    }
}

/// `<[u8]>::to_hex` of `bitcoin_hashes`: two lower-case digits per byte.
#[verifier::external_body]
pub(crate) fn bytes_to_hex(bytes: &Vec<u8>) -> (text: String)
    ensures
        text@ == hex(bytes@),
{
    bytes.as_slice().to_hex()
}

/// `Vec::<u8>::from_hex` of `bitcoin_hashes`: digits of either case, an even number of
/// them; any other text is an error. Which error it is goes unused and is left unsaid.
#[verifier::external_body]
pub(crate) fn bytes_from_hex(text: &str) -> (bytes: Option<Vec<u8>>)
    ensures
        match bytes {
            Some(found) => unhex(text@) == Some(found@),
            None => unhex(text@) is None,
        },
{
    Vec::<u8>::from_hex(text).ok()
}

/// `sha256d::Hash::to_hex` of `bitcoin_hashes`, which is also how `Txid`, `Wtxid`,
/// `BlockHash` and `TxMerkleNode` are shown: the bytes in reverse order, in hexadecimal.
#[verifier::external_body]
pub(crate) fn hash_to_hex(hash: &[u8; 32]) -> (text: String)
    ensures
        text@ == hash_hex(hash@),
{
    <bitcoin::hashes::sha256d::Hash as bitcoin::hashes::Hash>::from_inner(*hash).to_hex()
}

/// The lower-case hexadecimal digit of a value below sixteen, as a text.
fn digit_text(value: u32) -> (text: &'static str)
    requires
        value < 16,
    ensures
        text@ == seq![hex_digit(value as int)],
{
    proof {
        reveal_strlit("0");
        reveal_strlit("1");
        reveal_strlit("2");
        reveal_strlit("3");
        reveal_strlit("4");
        reveal_strlit("5");
        reveal_strlit("6");
        reveal_strlit("7");
        reveal_strlit("8");
        reveal_strlit("9");
        reveal_strlit("a");
        reveal_strlit("b");
        reveal_strlit("c");
        reveal_strlit("d");
        reveal_strlit("e");
        reveal_strlit("f");
    }
    match value {
        0 => "0",
        1 => "1",
        2 => "2",
        3 => "3",
        4 => "4",
        5 => "5",
        6 => "6",
        7 => "7",
        8 => "8",
        9 => "9",
        10 => "a",
        11 => "b",
        12 => "c",
        13 => "d",
        14 => "e",
        _ => "f",
    }
}

/// Writes a number in lower-case hexadecimal without leading zeros.
pub fn u32_to_lower_hex(value: u32) -> (text: String)
    ensures
        text@ == lower_hex(value as nat),
    decreases value,
{
    if value < 16 {
        digit_text(value).to_owned()
    } else {
        let mut text = u32_to_lower_hex(value / 16);
        text.append(digit_text(value % 16));
        text
    }
}

/// Writes a signed number as its two's complement in lower-case hexadecimal.
pub fn i32_to_lower_hex(value: i32) -> (text: String)
    ensures
        text@ == lower_hex(twos_complement(value)),
{
    if value >= 0 {
        u32_to_lower_hex(value as u32)
    } else {
        u32_to_lower_hex((value as i64 + 0x1_0000_0000) as u32)
    }
}

/// The characters of a text, one after the other.
pub(crate) fn characters(text: &str) -> (characters: Vec<char>)
    ensures
        characters@ == text@,
{
    let mut characters: Vec<char> = Vec::new();
    for character in chars: text.chars()
        invariant
            characters@ == chars.seq().take(chars.index() as int),
            chars.seq() == text@,
    {
        characters.push(character);
        assert(characters@ =~= chars.seq().take(chars.index() as int + 1));
    }
    assert(text@.take(text@.len() as int) =~= text@);
    characters
}

} // verus!
