//! When a header's compact target is not zero.

use vstd::arithmetic::div_mod::lemma_fundamental_div_mod;
use vstd::arithmetic::div_mod::lemma_fundamental_div_mod_converse;
use vstd::arithmetic::div_mod::lemma_small_mod;
use vstd::arithmetic::power::lemma_pow_adds;
use vstd::arithmetic::power::lemma_pow_increases;
use vstd::arithmetic::power::lemma_pow_positive;
use vstd::arithmetic::power::pow;
use vstd::prelude::*;

use crate::consensus::compact_target;

verus! {

/// Shifting by `shift` of 32 bytes keeps the value's low `32 - shift` bytes.
pub proof fn lemma_shift_within_word(value: nat, shift: nat)
    requires
        shift <= 32,
    ensures
        (value * pow(256, shift) as nat) % (pow(256, 32) as nat) != 0 <==> value % (pow(
            256,
            (32 - shift) as nat,
        ) as nat) != 0,
{
    let low = pow(256, shift);
    let high = pow(256, (32 - shift) as nat);
    lemma_pow_positive(256, shift);
    lemma_pow_positive(256, (32 - shift) as nat);
    lemma_pow_adds(256, (32 - shift) as nat, shift);
    let quotient = value as int / high;
    let rest = value as int % high;
    lemma_fundamental_div_mod(value as int, high);
    assert(value * low == quotient * (high * low) + rest * low) by (nonlinear_arith)
        requires
            value == high * quotient + rest,
    ;
    assert(0 <= rest * low < high * low) by (nonlinear_arith)
        requires
            0 <= rest < high,
            low > 0,
    ;
    lemma_fundamental_div_mod_converse(value * low, high * low, quotient, rest * low);
    assert(rest * low != 0 <==> rest != 0) by (nonlinear_arith)
        requires
            low > 0,
    ;
}

/// Whether a compact target stands for anything but zero.
pub fn has_target(bits: u32) -> (present: bool)
    ensures
        present == (compact_target(bits) != 0),
{
    let exponent: u32 = bits / 0x100_0000;
    let mantissa: u32 = bits % 0x100_0000;
    proof {
        reveal_with_fuel(pow, 5);
        assert(pow(256, 0) == 1);
        assert(pow(256, 1) == 256);
        assert(pow(256, 2) == 0x1_0000);
        assert(pow(256, 3) == 0x100_0000);
    }
    if exponent <= 3 {
        let shifted: u32 = if exponent == 3 {
            mantissa
        } else if exponent == 2 {
            mantissa / 0x100
        } else if exponent == 1 {
            mantissa / 0x1_0000
        } else {
            0
        };
        proof {
            let divisor = pow(256, (3 - exponent) as nat) as nat;
            if exponent == 0 {
                assert(divisor == 0x100_0000);
                assert(mantissa as nat / divisor == mantissa as nat / 0x100_0000);
            } else if exponent == 1 {
                assert(divisor == 0x1_0000);
                assert(mantissa as nat / divisor == mantissa as nat / 0x1_0000);
            } else if exponent == 2 {
                assert(divisor == 0x100);
                assert(mantissa as nat / divisor == mantissa as nat / 0x100);
            } else {
                assert(divisor == 1);
                assert(mantissa as nat / divisor == mantissa as nat / 1);
            }
            assert(shifted == mantissa as nat / divisor);
        }
        shifted != 0 && shifted <= 0x7f_ffff
    } else if mantissa > 0x7f_ffff {
        false
    } else {
        let shift: u32 = exponent - 3;
        if shift >= 32 {
            proof {
                lemma_pow_positive(256, 32);
                lemma_pow_positive(256, (shift - 32) as nat);
                lemma_pow_adds(256, 32, (shift - 32) as nat);
                let factor = mantissa * pow(256, (shift - 32) as nat);
                assert(mantissa * (pow(256, 32) * pow(256, (shift - 32) as nat)) == factor * pow(
                    256,
                    32,
                ) + 0) by (nonlinear_arith)
                    requires
                        factor == mantissa * pow(256, (shift - 32) as nat),
                ;
                lemma_fundamental_div_mod_converse(
                    mantissa * pow(256, shift as nat),
                    pow(256, 32),
                    factor,
                    0,
                );
            }
            false
        } else {
            proof {
                lemma_shift_within_word(mantissa as nat, shift as nat);
                let rest = mantissa as nat % (pow(256, (32 - shift) as nat) as nat);
                if shift <= 29 {
                    lemma_pow_increases(256, 3, (32 - shift) as nat);
                    lemma_small_mod(mantissa as nat, pow(256, (32 - shift) as nat) as nat);
                } else if shift == 30 {
                    assert(pow(256, (32 - shift) as nat) == 0x1_0000);
                    assert(rest == mantissa % 0x1_0000);
                } else {
                    assert(pow(256, (32 - shift) as nat) == 0x100);
                    assert(rest == mantissa % 0x100);
                }
            }
            if shift == 31 {
                mantissa % 0x100 != 0
            } else if shift == 30 {
                mantissa % 0x1_0000 != 0
            } else {
                mantissa != 0
            }
        }
    }
}

} // verus!
