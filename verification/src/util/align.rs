use vstd::prelude::*;
use vstd::arithmetic::power2::{pow2, lemma_pow2_pos, lemma2_to64, lemma2_to64_rest, lemma_pow2_strictly_increases};
use vstd::bits::{low_bits_mask, lemma_usize_low_bits_mask_is_mod, lemma_u64_low_bits_mask_is_mod};

verus! {

/// `n` is a power of two that a 64-bit word can hold.
pub open spec fn is_power_of_two(n: int) -> bool {
    exists|k: nat| k < 64 && #[trigger] pow2(k) == n
}

/// A power of two that a `usize` holds has an exponent below the word size.
proof fn lemma_pow2_fits_usize(k: nat)
    requires
        pow2(k) <= usize::MAX,
    ensures
        k < usize::BITS,
{
    lemma2_to64();
    lemma2_to64_rest();
    if k >= usize::BITS {
        if k > usize::BITS {
            lemma_pow2_strictly_increases(usize::BITS as nat, k);
        }
    }
}

/// For a power of two `align`, masking with `align - 1` is taking the
/// remainder, and masking with its complement rounds down.
pub proof fn lemma_align_mask(value: usize, align: usize)
    requires
        is_power_of_two(align as int),
    ensures
        align > 0,
        value & ((align - 1) as usize) == value % align,
        value & !((align - 1) as usize) == value - value % align,
{
    let k = choose|k: nat| k < 64 && #[trigger] pow2(k) == align;
    lemma_pow2_fits_usize(k);
    lemma_pow2_pos(k);
    lemma_usize_low_bits_mask_is_mod(value, k);
    assert(low_bits_mask(k) == align - 1);
    let m = (align - 1) as usize;
    assert(value & !m == value - (value & m)) by (bit_vector);
}

/// Rounds `value` down to a multiple of the power of two `align`.
pub fn align_down(value: usize, align: usize) -> (r: usize)
    requires
        is_power_of_two(align as int),
    ensures
        r == value - value % align,
{
    proof {
        lemma_align_mask(value, align);
    }
    value & !(align - 1)
}

/// Rounds `value` up to a multiple of the power of two `align`.
pub fn align_up(value: usize, align: usize) -> (r: usize)
    requires
        is_power_of_two(align as int),
        value + align <= usize::MAX,
    ensures
        r == (if value % align == 0 { value as int } else { value + align - value % align }),
{
    proof {
        lemma_align_mask(value, align);
    }
    let v = value + align - 1;
    proof {
        lemma_align_mask(v, align);
        if value % align == 0 {
            assert(v % align == align - 1) by (nonlinear_arith)
                requires v == value + align - 1, value % align == 0, align > 0;
        } else {
            assert(v - v % align == value + align - value % align) by (nonlinear_arith)
                requires v == value + align - 1, value % align != 0, align > 0;
        }
    }
    v & !(align - 1)
}

/// The 64-bit form of [`lemma_align_mask`].
pub proof fn lemma_align_mask_u64(value: u64, align: u64)
    requires
        is_power_of_two(align as int),
    ensures
        align > 0,
        value & ((align - 1) as u64) == value % align,
        value & !((align - 1) as u64) == value - value % align,
{
    let k = choose|k: nat| k < 64 && #[trigger] pow2(k) == align;
    lemma_pow2_pos(k);
    lemma_u64_low_bits_mask_is_mod(value, k);
    assert(low_bits_mask(k) == align - 1);
    let m = (align - 1) as u64;
    assert(value & !m == value - (value & m)) by (bit_vector);
}

/// Rounds a 64-bit `value` down to a multiple of the power of two `align`.
pub fn align_down_u64(value: u64, align: u64) -> (r: u64)
    requires
        is_power_of_two(align as int),
    ensures
        r == value - value % align,
{
    proof {
        lemma_align_mask_u64(value, align);
    }
    value & !(align - 1)
}

/// Rounds a 64-bit `value` up to a multiple of the power of two `align`.
pub fn align_up_u64(value: u64, align: u64) -> (r: u64)
    requires
        is_power_of_two(align as int),
        value + align <= u64::MAX,
    ensures
        r == (if value % align == 0 { value as int } else { value + align - value % align }),
{
    proof {
        lemma_align_mask_u64(value, align);
    }
    let v = value + align - 1;
    proof {
        lemma_align_mask_u64(v, align);
        if value % align == 0 {
            assert(v % align == align - 1) by (nonlinear_arith)
                requires v == value + align - 1, value % align == 0, align > 0;
        } else {
            assert(v - v % align == value + align - value % align) by (nonlinear_arith)
                requires v == value + align - 1, value % align != 0, align > 0;
        }
    }
    v & !(align - 1)
}

/// Every power of two below 2^64 that the kernel uses for pages.
pub proof fn lemma_page_sizes_are_powers_of_two()
    ensures
        is_power_of_two(4096),
        is_power_of_two(0x20_0000),
        is_power_of_two(0x4000_0000),
{
    vstd::arithmetic::power2::lemma2_to64();
    assert(pow2(12) == 4096);
    assert(pow2(21) == 0x20_0000);
    assert(pow2(30) == 0x4000_0000);
}

} // verus!
