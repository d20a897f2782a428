//! What the sizes, the encodings, the work and the difficulty of blocks amount to.

use vstd::arithmetic::div_mod::{
    lemma_fundamental_div_mod, lemma_mod_multiples_basic, lemma_small_mod,
};
use vstd::arithmetic::power::{
    lemma_pow0, lemma_pow_adds, lemma_pow_increases, lemma_pow_multiplies, lemma_pow_positive, pow,
};
use vstd::prelude::*;

use crate::consensus::{
    block_difficulty, block_encoding, block_size, block_strippedsize, block_weight, block_work,
    compact_target, count_encoding, count_size, decoded_transaction, header_encoding, inputs_size,
    little_endian, outputs_size, stripped_size, transaction_size, transaction_strippedsize,
    transaction_weight, virtual_size, work_text,
};
use crate::primitives::{BlockHeaderView, TransactionView, TxInView, TxOutView};
use crate::target::{has_target, lemma_shift_within_word};
use crate::text::{padded_hex, twos_complement};
use crate::text_laws::{are_lower_digits, law_padded_number_is_read_back, read_number};

verus! {

/// The number that bytes stand for, the lowest byte first.
pub open spec fn read_little_endian(bytes: Seq<u8>) -> nat
    decreases bytes.len(),
{
    if bytes.len() == 0 {
        0
    } else {
        bytes[0] as nat + 256 * read_little_endian(bytes.drop_first())
    }
}

/// A number that is written as bytes is read back as it was, if it has no more bytes than
/// that.
pub proof fn law_bytes_of_a_number_are_read_back(value: nat, width: nat)
    requires
        value < pow(256, width),
    ensures
        little_endian(value, width).len() == width,
        read_little_endian(little_endian(value, width)) == value,
    decreases width,
{
    if width == 0 {
        lemma_pow0(256);
    } else {
        reveal(pow);
        assert(pow(256, width) == 256 * pow(256, (width - 1) as nat));
        law_bytes_of_a_number_are_read_back(value / 256, (width - 1) as nat);
        let bytes = little_endian(value, width);
        assert(bytes.drop_first() =~= little_endian(value / 256, (width - 1) as nat));
    }
}

proof fn lemma_four_bytes(value: nat)
    requires
        value < 0x1_0000_0000,
    ensures
        little_endian(value, 4).len() == 4,
        read_little_endian(little_endian(value, 4)) == value,
{
    reveal_with_fuel(pow, 5);
    law_bytes_of_a_number_are_read_back(value, 4);
}

/// A header is encoded in eighty bytes: version, the hash of the block before, the root of
/// the transactions, time, target and nonce.
pub proof fn law_header_fields_are_read_back(header: BlockHeaderView)
    requires
        header.prev_blockhash.len() == 32,
        header.merkle_root.len() == 32,
    ensures
        ({
            let bytes = header_encoding(header);
            &&& bytes.len() == 80
            &&& (read_little_endian(bytes.subrange(0, 4)) - header.version) % 0x1_0000_0000 == 0
            &&& bytes.subrange(4, 36) == header.prev_blockhash
            &&& bytes.subrange(36, 68) == header.merkle_root
            &&& read_little_endian(bytes.subrange(68, 72)) == header.time
            &&& read_little_endian(bytes.subrange(72, 76)) == header.bits
            &&& read_little_endian(bytes.subrange(76, 80)) == header.nonce
        }),
{
    let bytes = header_encoding(header);
    lemma_four_bytes(twos_complement(header.version));
    lemma_four_bytes(header.time as nat);
    lemma_four_bytes(header.bits as nat);
    lemma_four_bytes(header.nonce as nat);
    assert(bytes.subrange(0, 4) =~= little_endian(twos_complement(header.version), 4));
    assert(bytes.subrange(4, 36) =~= header.prev_blockhash);
    assert(bytes.subrange(36, 68) =~= header.merkle_root);
    assert(bytes.subrange(68, 72) =~= little_endian(header.time as nat, 4));
    assert(bytes.subrange(72, 76) =~= little_endian(header.bits as nat, 4));
    assert(bytes.subrange(76, 80) =~= little_endian(header.nonce as nat, 4));
}

/// A count is encoded in one byte, or in two, four or eight behind a byte that says which, and
/// is read back as it was.
pub proof fn law_count_is_read_back(count: nat)
    requires
        count <= u64::MAX,
    ensures
        count_encoding(count).len() == count_size(count),
        count_size(count) == 1 ==> count_encoding(count) == seq![count as u8] && count < 0xfd,
        count_size(count) != 1 ==> {
            &&& read_little_endian(count_encoding(count).drop_first()) == count
            &&& count_size(count) == 3 ==> count_encoding(count)[0] == 0xfd && count >= 0xfd
            &&& count_size(count) == 5 ==> count_encoding(count)[0] == 0xfe && count > 0xffff
            &&& count_size(count) == 9 ==> count_encoding(count)[0] == 0xff && count > 0xffff_ffff
        },
        count_size(count) == 1 || count_size(count) == 3 || count_size(count) == 5 || count_size(
            count,
        ) == 9,
{
    reveal_with_fuel(pow, 9);
    reveal_with_fuel(little_endian, 2);
    let rest = count_encoding(count).drop_first();
    if count < 0xfd {
        assert(count_encoding(count) =~= seq![count as u8]);
    } else if count <= 0xffff {
        law_bytes_of_a_number_are_read_back(count, 2);
        assert(rest =~= little_endian(count, 2));
    } else if count <= 0xffff_ffff {
        law_bytes_of_a_number_are_read_back(count, 4);
        assert(rest =~= little_endian(count, 4));
    } else {
        assert(pow(256, 8) == 0x1_0000_0000_0000_0000);
        law_bytes_of_a_number_are_read_back(count, 8);
        assert(rest =~= little_endian(count, 8));
    }
}

/// A block is encoded as its header, the count of its transactions, and the transactions one
/// behind the other.
pub proof fn law_block_is_encoded_in_order(header: BlockHeaderView, raws: Seq<Seq<u8>>)
    requires
        header.prev_blockhash.len() == 32,
        header.merkle_root.len() == 32,
        raws.len() <= u64::MAX,
    ensures
        ({
            let bytes = block_encoding(header, raws);
            let start = 80 + count_size(raws.len()) as int;
            &&& bytes.take(80) == header_encoding(header)
            &&& bytes.subrange(80, start) == count_encoding(raws.len())
            &&& bytes.skip(start) == raws.flatten()
        }),
{
    let bytes = block_encoding(header, raws);
    let start = 80 + count_size(raws.len()) as int;
    law_header_fields_are_read_back(header);
    law_count_is_read_back(raws.len());
    assert(bytes.take(80) =~= header_encoding(header));
    assert(bytes.subrange(80, start) =~= count_encoding(raws.len()));
    assert(bytes.skip(start) =~= raws.flatten());
}

/// Each input adds forty bytes and its script, with the script's length before it.
pub proof fn law_each_input_adds_its_bytes(inputs: Seq<TxInView>, input: TxInView)
    ensures
        inputs_size(seq![]) == 0,
        inputs_size(inputs.push(input)) - inputs_size(inputs) == 40 + count_size(
            input.script_sig.len(),
        ) + input.script_sig.len(),
{
    assert(inputs.push(input).drop_last() =~= inputs);
}

/// Each output adds eight bytes and its script, with the script's length before it.
pub proof fn law_each_output_adds_its_bytes(outputs: Seq<TxOutView>, output: TxOutView)
    ensures
        outputs_size(seq![]) == 0,
        outputs_size(outputs.push(output)) - outputs_size(outputs) == 8 + count_size(
            output.script_pubkey.len(),
        ) + output.script_pubkey.len(),
{
    assert(outputs.push(output).drop_last() =~= outputs);
}

/// A transaction without inputs and outputs takes ten bytes; inputs and outputs come on top,
/// with the bytes that their counts take beyond the first.
pub proof fn law_stripped_size_adds_up(tx: TransactionView)
    ensures
        stripped_size(tx) == 10 + (count_size(tx.input.len()) - 1) + (count_size(tx.output.len())
            - 1) + inputs_size(tx.input) + outputs_size(tx.output),
{
}

/// What a transaction weighs and measures: its size is the length of its encoding, less the
/// two bytes that mark one without inputs; its weight counts what is no witness four times;
/// its virtual size is the least number of which four are no less than the weight.
pub proof fn law_transaction_measures(raw: Seq<u8>)
    requires
        raw.len() >= 2,
    ensures
        decoded_transaction(raw)->Ok_0.input.len() > 0 ==> transaction_size(raw) == raw.len(),
        decoded_transaction(raw)->Ok_0.input.len() == 0 ==> transaction_size(raw) == raw.len() - 2,
        transaction_strippedsize(raw) == stripped_size(decoded_transaction(raw)->Ok_0),
        transaction_weight(raw) - transaction_size(raw) == 3 * transaction_strippedsize(raw),
        4 * virtual_size(raw) >= transaction_weight(raw),
        4 * virtual_size(raw) < transaction_weight(raw) + 4,
{
}

/// Each transaction adds its size, its weight and its size without witness data to the
/// block's, beside what the count takes; an empty block is its header and a count of zero.
pub proof fn law_each_transaction_adds_its_measures(raws: Seq<Seq<u8>>, raw: Seq<u8>)
    ensures
        block_size(seq![]) == 81,
        block_strippedsize(seq![]) == 81,
        block_weight(seq![]) == 324,
        block_size(raws.push(raw)) - block_size(raws) == transaction_size(raw) + count_size(
            raws.len() + 1,
        ) - count_size(raws.len()),
        block_strippedsize(raws.push(raw)) - block_strippedsize(raws) == transaction_strippedsize(
            raw,
        ) + count_size(raws.len() + 1) - count_size(raws.len()),
        block_weight(raws.push(raw)) - block_weight(raws) == transaction_weight(raw) + 4 * (
        count_size(raws.len() + 1) - count_size(raws.len())),
{
    assert(raws.push(raw).drop_last() =~= raws);
    assert(raws.push(raw).len() == raws.len() + 1);
}

/// A compact target of exponent three or more stands for its mantissa, shifted up by the bytes
/// that the exponent counts beyond three, unless the mantissa has its sign bit set or the
/// target would not fit.
pub proof fn law_compact_target_shifts_its_mantissa(bits: u32)
    ensures
        ({
            let exponent = bits as nat / 0x100_0000;
            let mantissa = bits as nat % 0x100_0000;
            &&& 3 <= exponent <= 32 && mantissa <= 0x7f_ffff ==> compact_target(bits) == mantissa
                * pow(256, (exponent - 3) as nat)
            &&& exponent >= 3 && mantissa > 0x7f_ffff ==> compact_target(bits) == 0
            &&& exponent == 2 ==> compact_target(bits) == mantissa / 0x100
            &&& exponent == 1 ==> compact_target(bits) == mantissa / 0x1_0000
            &&& exponent == 0 ==> compact_target(bits) == 0
        }),
        compact_target(bits) < pow(256, 32),
{
    let exponent = bits as nat / 0x100_0000;
    let mantissa = bits as nat % 0x100_0000;
    lemma_pow_positive(256, 32);
    lemma_pow_increases(256, 3, 32);
    reveal_with_fuel(pow, 5);
    assert(pow(256, 0) == 1 && pow(256, 1) == 256 && pow(256, 2) == 0x1_0000 && pow(256, 3)
        == 0x100_0000);
    if exponent <= 3 {
        let divisor = pow(256, (3 - exponent) as nat) as nat;
        if exponent == 3 {
            assert(mantissa / divisor == mantissa / 1);
        } else if exponent == 2 {
            assert(mantissa / divisor == mantissa / 0x100);
        } else if exponent == 1 {
            assert(mantissa / divisor == mantissa / 0x1_0000);
        } else {
            assert(mantissa / divisor == mantissa / 0x100_0000);
        }
        if exponent == 3 {
            assert(mantissa * pow(256, 0) == mantissa);
        }
    } else if mantissa <= 0x7f_ffff {
        let factor = pow(256, (exponent - 3) as nat);
        lemma_pow_positive(256, (exponent - 3) as nat);
        if exponent <= 32 {
            lemma_pow_adds(256, 3, (exponent - 3) as nat);
            lemma_pow_increases(256, exponent, 32);
            assert(mantissa * factor < pow(256, 3) * factor) by (nonlinear_arith)
                requires
                    mantissa < pow(256, 3),
                    factor > 0,
            ;
            assert(0 <= mantissa * factor) by (nonlinear_arith)
                requires
                    mantissa >= 0,
                    factor > 0,
            ;
            assert((mantissa * factor as nat) == mantissa * factor);
            lemma_small_mod((mantissa * factor) as nat, pow(256, 32) as nat);
        }
    }
}

/// A header has a target if and only if its mantissa has no sign bit, the exponent leaves
/// some of it, and what is left is not zero.
pub proof fn law_target_is_present(bits: u32, present: bool)
    requires
        call_ensures(has_target, (bits,), present),
    ensures
        ({
            let exponent = bits as nat / 0x100_0000;
            let mantissa = bits as nat % 0x100_0000;
            &&& exponent == 0 ==> !present
            &&& exponent == 1 ==> (present <==> mantissa >= 0x1_0000)
            &&& exponent == 2 ==> (present <==> mantissa >= 0x100)
            &&& 3 <= exponent <= 32 ==> (present <==> 0 < mantissa <= 0x7f_ffff)
            &&& exponent == 33 ==> (present <==> mantissa <= 0x7f_ffff && mantissa % 0x1_0000 != 0)
            &&& exponent == 34 ==> (present <==> mantissa <= 0x7f_ffff && mantissa % 0x100 != 0)
            &&& exponent > 34 ==> !present
        }),
{
    let exponent = bits as nat / 0x100_0000;
    let mantissa = bits as nat % 0x100_0000;
    law_compact_target_shifts_its_mantissa(bits);
    if 3 <= exponent <= 32 && mantissa <= 0x7f_ffff {
        let factor = pow(256, (exponent - 3) as nat);
        lemma_pow_positive(256, (exponent - 3) as nat);
        assert(mantissa * factor != 0 <==> mantissa != 0) by (nonlinear_arith)
            requires
                factor > 0,
        ;
    } else if exponent == 33 || exponent == 34 {
        lemma_shift_within_word(mantissa, (exponent - 3) as nat);
        reveal_with_fuel(pow, 3);
        assert(pow(256, 1) == 256 && pow(256, 2) == 0x1_0000);
        let left = pow(256, (35 - exponent) as nat) as nat;
        assert(mantissa % left == if exponent == 33 {
            mantissa % 0x1_0000
        } else {
            mantissa % 0x100
        });
    } else if exponent > 34 {
        let rest = pow(256, (exponent - 35) as nat);
        lemma_pow_positive(256, 32);
        lemma_pow_positive(256, (exponent - 35) as nat);
        lemma_pow_positive(256, (exponent - 3) as nat);
        lemma_pow_adds(256, 32, (exponent - 35) as nat);
        assert(mantissa * (pow(256, 32) * rest) == (mantissa * rest) * pow(256, 32))
            by (nonlinear_arith);
        lemma_mod_multiples_basic(mantissa * rest, pow(256, 32));
    }
}

/// The difficulty is how often a header's target goes into the easiest one, in 64 bits.
pub proof fn law_difficulty_times_target_is_the_easiest(bits: u32)
    requires
        compact_target(bits) != 0,
    ensures
        exists|times: nat| #[trigger]
            goes_into(compact_target(bits), 0xffff * pow(256, 26) as nat, times)
                && block_difficulty(bits) == times % 0x1_0000_0000_0000_0000,
{
    lemma_pow_positive(256, 26);
    let easiest = 0xffff * pow(256, 26) as nat;
    lemma_goes_into(compact_target(bits), easiest);
    assert(goes_into(compact_target(bits), easiest, easiest / compact_target(bits)));
}

/// Whether a number goes a number of times, and not once more, into another.
pub open spec fn goes_into(divisor: nat, whole: nat, times: nat) -> bool {
    times * divisor <= whole < (times + 1) * divisor
}

proof fn lemma_goes_into(divisor: nat, whole: nat)
    requires
        divisor > 0,
    ensures
        goes_into(divisor, whole, whole / divisor),
{
    lemma_fundamental_div_mod(whole as int, divisor as int);
    let times = whole / divisor;
    assert(times * divisor <= whole < (times + 1) * divisor) by (nonlinear_arith)
        requires
            whole == divisor * times + whole % divisor,
            0 <= whole % divisor < divisor,
    ;
}

/// The work of a block is how often one more than its target goes into 2^256, in 256 bits.
pub proof fn law_work_times_target_is_all_hashes(bits: u32)
    ensures
        exists|times: nat| #[trigger]
            goes_into(compact_target(bits) + 1, pow(256, 32) as nat, times) && block_work(bits)
                == times % (pow(256, 32) as nat),
{
    lemma_pow_positive(256, 32);
    let hashes = pow(256, 32) as nat;
    lemma_goes_into(compact_target(bits) + 1, hashes);
    assert(goes_into(compact_target(bits) + 1, hashes, hashes / (compact_target(bits) + 1)));
}

/// Work is written as `0x` and 64 digits, which are read back as the work.
pub proof fn law_work_is_read_back(bits: u32)
    ensures
        work_text(bits).len() == 66,
        work_text(bits)[0] == '0' && work_text(bits)[1] == 'x',
        are_lower_digits(work_text(bits).skip(2)),
        read_number(work_text(bits).skip(2), 16) == block_work(bits),
{
    lemma_pow_positive(256, 32);
    reveal_with_fuel(pow, 3);
    assert(pow(16, 2) == 256);
    lemma_pow_multiplies(16, 2, 32);
    law_padded_number_is_read_back(block_work(bits), 64);
    assert(work_text(bits).skip(2) =~= padded_hex(block_work(bits), 64));
}

} // verus!
