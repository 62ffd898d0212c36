//! Rounding a byte count up to a multiple of an alignment.

use vstd::arithmetic::div_mod::{lemma_fundamental_div_mod, lemma_fundamental_div_mod_converse};
use vstd::arithmetic::power::pow;
use vstd::arithmetic::power2::{
    is_pow2, is_pow2_equiv, is_pow2_exists, lemma2_to64, lemma_pow2_pos,
    lemma_pow2_strictly_increases, pow2,
};
use vstd::bits::{lemma_usize_low_bits_mask_is_mod, low_bits_mask};
use vstd::prelude::*;

verus! {

/// The least multiple of `alignment` that is not below `size`, for a positive
/// `alignment`.
pub open spec fn round_up(size: int, alignment: int) -> int {
    ((size + alignment - 1) / alignment) * alignment
}

/// What the mask formula computes on machine words: add the mask, then clear its
/// bits.
pub open spec fn mask_round(size: usize, alignment: usize) -> usize {
    ((size + (alignment - 1)) as usize) & !((alignment - 1) as usize)
}

/// `round_up` is at least `size`, is a multiple of `alignment`, and adds less than
/// one `alignment`. It leaves a multiple of `alignment` as it is.
pub proof fn lemma_round_up_bounds(size: int, alignment: int)
    requires
        size >= 0,
        alignment >= 1,
    ensures
        round_up(size, alignment) >= size,
        round_up(size, alignment) % alignment == 0,
        round_up(size, alignment) - size < alignment,
        size % alignment == 0 ==> round_up(size, alignment) == size,
{
    let top = size + alignment - 1;
    let q = top / alignment;
    lemma_fundamental_div_mod(top, alignment);
    assert(alignment * q == q * alignment) by (nonlinear_arith);
    assert(0 <= top % alignment < alignment);
    lemma_fundamental_div_mod_converse(q * alignment, alignment, q, 0);
    if size % alignment == 0 {
        let k = size / alignment;
        lemma_fundamental_div_mod(size, alignment);
        assert(alignment * k == k * alignment) by (nonlinear_arith);
        lemma_fundamental_div_mod_converse(top, alignment, k, alignment - 1);
    }
}

/// No multiple of `alignment` lies between `size` and `round_up`: every multiple
/// that reaches `size` reaches `round_up` too.
pub proof fn lemma_round_up_least(size: int, alignment: int, multiple: int)
    requires
        size >= 0,
        alignment >= 1,
        multiple % alignment == 0,
        multiple >= size,
    ensures
        multiple >= round_up(size, alignment),
{
    let top = size + alignment - 1;
    let q = top / alignment;
    let j = multiple / alignment;
    lemma_fundamental_div_mod(top, alignment);
    lemma_fundamental_div_mod(multiple, alignment);
    assert(alignment * q == q * alignment) by (nonlinear_arith);
    assert(alignment * j == j * alignment) by (nonlinear_arith);
    if j < q {
        assert(j * alignment + alignment <= q * alignment) by (nonlinear_arith)
            requires
                j + 1 <= q,
                alignment >= 1,
        ;
    } else {
        assert(j * alignment >= q * alignment) by (nonlinear_arith)
            requires
                j >= q,
                alignment >= 1,
        ;
    }
}

/// A machine word that is a power of two is `pow2(k)` for some `k` below the
/// word's width.
proof fn lemma_pow2_exponent(alignment: usize) -> (k: nat)
    requires
        is_pow2(alignment as int),
    ensures
        k < usize::BITS,
        pow2(k) == alignment,
        alignment >= 1,
{
    is_pow2_equiv(alignment as int);
    assert(is_pow2_exists(alignment as int));
    let k = choose|i: nat| pow(2, i) == alignment as int;
    lemma_pow2_pos(k);
    if k >= usize::BITS {
        lemma2_to64();
        if k > usize::BITS {
            lemma_pow2_strictly_increases(usize::BITS as nat, k);
        }
    }
    k
}

/// On a power of two the mask formula rounds up: it gives `round_up`.
pub proof fn lemma_mask_round_is_round_up(size: usize, alignment: usize)
    requires
        is_pow2(alignment as int),
        size + (alignment - 1) <= usize::MAX,
    ensures
        mask_round(size, alignment) == round_up(size as int, alignment as int),
{
    let k = lemma_pow2_exponent(alignment);
    let mask: usize = (alignment - 1) as usize;
    let top: usize = (size + mask) as usize;
    assert(low_bits_mask(k) as usize == mask);
    lemma_usize_low_bits_mask_is_mod(top, k);
    assert(top & mask == top % alignment);
    assert(top & !mask == top - (top & mask)) by (bit_vector);
    lemma_fundamental_div_mod(top as int, alignment as int);
    assert(alignment * (top / alignment) == (top / alignment) * alignment) by (nonlinear_arith);
}

/// Rounds `size` up with the mask formula `(size + (alignment - 1)) & !(alignment - 1)`.
///
/// For an `alignment` that is a power of two the result is the least multiple of
/// `alignment` that is not below `size`: at least `size`, a multiple of
/// `alignment`, less than one `alignment` above `size`, and `size` itself where
/// `size` is such a multiple already.
pub fn alignmented_size(size: usize, alignment: usize) -> (aligned: usize)
    requires
        alignment >= 1,
        size + (alignment - 1) <= usize::MAX,
    ensures
        aligned == mask_round(size, alignment),
        is_pow2(alignment as int) ==> aligned == round_up(size as int, alignment as int),
        is_pow2(alignment as int) ==> aligned >= size,
        is_pow2(alignment as int) ==> aligned % alignment == 0,
        is_pow2(alignment as int) ==> aligned - size < alignment,
        is_pow2(alignment as int) && size % alignment == 0 ==> aligned == size,
{
    let mask: usize = alignment - 1;
    proof {
        if is_pow2(alignment as int) {
            lemma_mask_round_is_round_up(size, alignment);
            lemma_round_up_bounds(size as int, alignment as int);
        }
    }
    (size + mask) & !mask
}

/// `alignmented_size` where the sum could leave the machine word: `None` exactly
/// when `alignment` is zero or `size + (alignment - 1)` does not fit.
pub fn checked_alignmented_size(size: usize, alignment: usize) -> (aligned: Option<usize>)
    ensures
        aligned is Some <==> alignment >= 1 && size + (alignment - 1) <= usize::MAX,
        aligned matches Some(a) ==> a == mask_round(size, alignment),
        aligned matches Some(a) ==> (is_pow2(alignment as int) ==> a == round_up(
            size as int,
            alignment as int,
        )),
{
    if alignment == 0 || size > usize::MAX - (alignment - 1) {
        None
    } else {
        Some(alignmented_size(size, alignment))
    }
}

} // verus!
