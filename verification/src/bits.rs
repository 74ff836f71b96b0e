//! Extraction of bit fields from 32-bit instruction words.
use vstd::prelude::*;
use vstd::arithmetic::power2::{pow2, lemma2_to64, lemma_pow2_pos};
use vstd::bits::{lemma_u32_shr_is_div, lemma_u32_shl_is_mul, lemma_u32_low_bits_mask_is_mod, low_bits_mask, lemma_u32_pow2_no_overflow};

verus! {

/// The value of bits `hi..=lo` of `word`, read as an unsigned number.
pub open spec fn field(word: u32, hi: u32, lo: u32) -> nat {
    (word as nat / pow2(lo as nat)) % pow2((hi - lo + 1) as nat)
}

/// Bits `hi` down to `lo` (both inclusive) of `word`, shifted down to bit 0.
pub fn bits(word: u32, hi: u32, lo: u32) -> (r: u32)
    requires
        lo <= hi < 32,
    ensures
        r == field(word, hi, lo),
{
    let width = hi - lo + 1;
    proof {
        lemma_u32_shr_is_div(word, lo);
        lemma2_to64();
        if width < 32 {
            lemma_u32_pow2_no_overflow(width as nat);
            lemma_u32_shl_is_mul(1, width);
        }
    }

    let mask = if width == 32 {
        u32::MAX
    } else {
        (1u32 << width) - 1
    };
    proof {
        if width == 32 {
            assert(lo == 0);
            assert(word as nat / pow2(0) == word);
            assert(word >> lo == word);
            assert(word & u32::MAX == word) by (bit_vector);
            assert(word as nat % pow2(32) == word);
            assert(field(word, hi, lo) == word);
        } else {
            assert(mask == low_bits_mask(width as nat));
            lemma_u32_low_bits_mask_is_mod(word >> lo, width as nat);
            assert((word >> lo) & mask == (word >> lo) % (pow2(width as nat) as u32));
            assert(field(word, hi, lo) == (word >> lo) % (pow2(width as nat) as u32));
        }
    }
    (word >> lo) & mask
}

/// Whether bit `pos` of `word` is set.
pub fn bit(word: u32, pos: u32) -> (r: bool)
    requires
        pos < 32,
    ensures
        r == (field(word, pos, pos) == 1),
{
    proof {
        lemma_u32_shr_is_div(word, pos);
        lemma2_to64();
        assert(pow2(1) == 2);
        assert((word >> pos) & 1 == (word >> pos) % 2) by (bit_vector);
    }
    (word >> pos) & 1 == 1
}

/// The fields that reach up to bit 31 are plain right shifts of the word,
/// and the narrower fields fit their widths.
pub proof fn lemma_field_facts(word: u32)
    ensures
        field(word, 31, 23) == word >> 23,
        field(word, 31, 25) == word >> 25,
        field(word, 31, 30) == word >> 30,
        field(word, 29, 23) == (word >> 23) % 128,
        field(word, 22, 16) < 128,
        field(word, 24, 17) < 256,
        field(word, 16, 9) < 512,
        field(word, 15, 8) < 256,
        field(word, 15, 0) < 0x1_0000,
        field(word, 8, 0) < 512,
        field(word, 7, 0) < 256,
{
    lemma2_to64();
    lemma_u32_shr_is_div(word, 23);
    lemma_u32_shr_is_div(word, 25);
    lemma_u32_shr_is_div(word, 30);
    assert(word >> 23 < 512) by (bit_vector);
    assert(word >> 25 < 128) by (bit_vector);
    assert(word >> 30 < 4) by (bit_vector);
    assert(pow2(9) == 512 && pow2(7) == 128);
    let a = word >> 23;
    assert(a < 512);
    assert(a as nat % 512 == a);
    assert(field(word, 29, 23) == (word >> 23) % 128);
    let b = word >> 25;
    assert(b < 128);
    assert(b as nat % 128 == b);
    let c = word >> 30;
    assert(pow2(2) == 4);
    assert(c as nat % 4 == c);
}

/// A field of n bits holds a value below 2^n, and the field of all 32 bits is
/// the word itself.
pub proof fn lemma_field_bounds(word: u32, hi: u32, lo: u32)
    requires
        lo <= hi < 32,
    ensures
        field(word, hi, lo) < pow2((hi - lo + 1) as nat),
        field(word, 31, 0) == word,
{
    lemma_pow2_pos((hi - lo + 1) as nat);
    lemma2_to64();
    assert(word as nat / pow2(0) == word);
    assert(pow2(32) == 0x1_0000_0000);
    assert(word as nat % 0x1_0000_0000 == word);
}

} // verus!
