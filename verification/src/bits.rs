//! Bits of a 128-bit word.

use crate::count::count;
use vstd::arithmetic::power2::pow2;
use vstd::bits::lemma_u128_shr_is_div;
use vstd::prelude::*;

verus! {

/// Whether bit `i` of `x` is set.
pub open spec fn bit(x: u128, i: int) -> bool {
    0 <= i < 128 && (x >> (i as u128)) & 1 == 1
}

/// `u128::count_ones` returns how many of the 128 bits of its argument are set.
pub assume_specification[ u128::count_ones ](x: u128) -> (r: u32)
    ensures
        r == count(|i: int| bit(x, i), 128),
;

/// No bit of zero is set.
pub proof fn lemma_bit_zero(i: int)
    ensures
        !bit(0, i),
{
    if 0 <= i < 128 {
        let k = i as u128;
        assert((0u128 >> k) & 1 == 0) by (bit_vector);
    }
}

/// Setting bit `k` sets that bit and leaves the others.
pub proof fn lemma_bit_set(x: u128, k: u128, i: int)
    requires
        k < 128,
        0 <= i < 128,
    ensures
        bit(x | (1u128 << k), i) == (bit(x, i) || i == k),
{
    let j = i as u128;
    assert(((x | (1u128 << k)) >> j) & 1 == 1 <==> ((x >> j) & 1 == 1 || j == k)) by (bit_vector)
        requires
            k < 128,
            j < 128,
    ;
}

/// Smearing a word by one place to either side, then masking it.
pub proof fn lemma_bit_smear(x: u128, m: u128, i: int)
    requires
        0 <= i < 128,
    ensures
        bit(((x << 1) | (x >> 1) | x) & m, i) == ((bit(x, i - 1) || bit(x, i) || bit(x, i + 1))
            && bit(m, i)),
{
    let j = i as u128;
    assert(((((x << 1) | (x >> 1) | x) & m) >> j) & 1 == 1 <==> ((((x << 1) >> j) & 1 == 1 || ((x
        >> 1) >> j) & 1 == 1 || (x >> j) & 1 == 1) && (m >> j) & 1 == 1)) by (bit_vector)
        requires
            j < 128,
    ;
    if i == 0 {
        assert(((x << 1) >> 0u128) & 1 == 0) by (bit_vector);
    } else {
        let h = (i - 1) as u128;
        assert(((x << 1) >> j) & 1 == (x >> h) & 1) by (bit_vector)
            requires
                0 < j < 128,
                h == j - 1,
        ;
    }
    if i == 127 {
        assert(((x >> 1) >> 127u128) & 1 == 0) by (bit_vector);
    } else {
        let l = (i + 1) as u128;
        assert(((x >> 1) >> j) & 1 == (x >> l) & 1) by (bit_vector)
            requires
                j < 127,
                l == j + 1,
        ;
    }
}

/// Bit `i` of a word is its binary digit of weight two to the power of `i`.
pub proof fn law_bit_is_binary_digit(x: u128, i: int)
    requires
        0 <= i < 128,
    ensures
        bit(x, i) <==> (x as int / pow2(i as nat) as int) % 2 == 1,
{
    lemma_u128_shr_is_div(x, i as u128);
    let y = x >> (i as u128);
    assert(y & 1 == y % 2) by (bit_vector);
}

} // verus!
