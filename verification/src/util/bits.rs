use vstd::prelude::*;

verus! {

/// Masking never gives more than the mask or the value.
pub proof fn lemma_u64_and_le(x: u64, m: u64)
    ensures
        x & m <= m,
        x & m <= x,
{
    assert((x & m <= m) && (x & m <= x)) by (bit_vector);
}

/// Masking never gives more than the mask or the value.
pub proof fn lemma_u32_and_le(x: u32, m: u32)
    ensures
        x & m <= m,
        x & m <= x,
{
    assert((x & m <= m) && (x & m <= x)) by (bit_vector);
}

/// Masking never gives more than the mask or the value.
pub proof fn lemma_u16_and_le(x: u16, m: u16)
    ensures
        x & m <= m,
        x & m <= x,
{
    assert((x & m <= m) && (x & m <= x)) by (bit_vector);
}

/// Masking never gives more than the mask or the value.
pub proof fn lemma_u8_and_le(x: u8, m: u8)
    ensures
        x & m <= m,
        x & m <= x,
{
    assert((x & m <= m) && (x & m <= x)) by (bit_vector);
}

/// The two bytes of a 16-bit value, most significant first.
pub proof fn lemma_u16_bytes(x: u16)
    ensures
        x >> 8u16 == x / 256,
        x & 0xFF == x % 256,
{
    assert((x >> 8u16 == x / 256) && (x & 0xFF == x % 256)) by (bit_vector);
}

/// The four bytes of a 32-bit value, most significant first.
pub proof fn lemma_u32_bytes(x: u32)
    ensures
        x >> 24u32 == x / 0x100_0000,
        (x >> 16u32) & 0xFF == (x / 0x1_0000) % 256,
        (x >> 8u32) & 0xFF == (x / 256) % 256,
        x & 0xFF == x % 256,
{
    assert((x >> 24u32 == x / 0x100_0000) && ((x >> 16u32) & 0xFF == (x / 0x1_0000) % 256) && ((x >> 8u32) & 0xFF == (x / 256) % 256) && (x & 0xFF == x % 256)) by (bit_vector);
}

/// The two 16-bit halves of a 32-bit value, each put together from its bytes.
pub proof fn lemma_u32_halves(a: u32)
    ensures
        ((a / 0x100_0000) as u8) as int * 256 + ((a / 0x1_0000) % 256) as u8 as int == a / 0x1_0000,
        ((a / 256) % 256) as u8 as int * 256 + (a % 256) as u8 as int == a % 0x1_0000,
{
    assert((((a / 0x100_0000) as u8) as int * 256 + ((a / 0x1_0000) % 256) as u8 as int == a / 0x1_0000) && (((a / 256) % 256) as u8 as int * 256 + (a % 256) as u8 as int == a % 0x1_0000)) by (bit_vector);
}

/// The upper and lower halves of a 32-bit value.
pub proof fn lemma_u32_split16(x: u32)
    ensures
        x >> 16u32 == x / 0x1_0000,
        (x >> 16u32) as u16 == x / 0x1_0000,
        x as u16 == x % 0x1_0000,
{
    assert((x >> 16u32 == x / 0x1_0000) && ((x >> 16u32) as u16 == x / 0x1_0000) && (x as u16 == x % 0x1_0000)) by (bit_vector);
}

/// The complement of a 16-bit value.
pub proof fn lemma_u16_not(x: u16)
    ensures
        !x == 0xFFFF - x,
{
    assert((!x == 0xFFFF - x)) by (bit_vector);
}

} // verus!
