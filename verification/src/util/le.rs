use vstd::prelude::*;

verus! {

/// The little-endian 16-bit value at `b[at..at + 2]`.
pub open spec fn le16(b: Seq<u8>, at: int) -> int {
    b[at] as int + b[at + 1] as int * 0x100
}

/// The little-endian 32-bit value at `b[at..at + 4]`.
pub open spec fn le32(b: Seq<u8>, at: int) -> int {
    le16(b, at) + le16(b, at + 2) * 0x1_0000
}

/// The little-endian 64-bit value at `b[at..at + 8]`.
pub open spec fn le64(b: Seq<u8>, at: int) -> int {
    le32(b, at) + le32(b, at + 4) * 0x1_0000_0000
}

/// Reads the little-endian 16-bit value at `b[at..at + 2]`.
pub fn read_le16(b: &[u8], at: usize) -> (r: u16)
    requires
        at + 2 <= b.len(),
    ensures
        r == le16(b@, at as int),
{
    (b[at] as u16) + (b[at + 1] as u16) * 0x100
}

/// Reads the little-endian 32-bit value at `b[at..at + 4]`.
pub fn read_le32(b: &[u8], at: usize) -> (r: u32)
    requires
        at + 4 <= b.len(),
    ensures
        r == le32(b@, at as int),
{
    let lo = read_le16(b, at) as u32;
    let hi = read_le16(b, at + 2) as u32;
    proof {
        assert(lo + hi * 0x1_0000 <= u32::MAX) by (nonlinear_arith)
            requires lo <= 0xFFFF, hi <= 0xFFFF;
    }
    lo + hi * 0x1_0000
}

/// Reads the little-endian 64-bit value at `b[at..at + 8]`.
pub fn read_le64(b: &[u8], at: usize) -> (r: u64)
    requires
        at + 8 <= b.len(),
    ensures
        r == le64(b@, at as int),
{
    let lo = read_le32(b, at) as u64;
    let hi = read_le32(b, at + 4) as u64;
    proof {
        assert(lo + hi * 0x1_0000_0000 <= u64::MAX) by (nonlinear_arith)
            requires lo <= 0xFFFF_FFFF, hi <= 0xFFFF_FFFF;
    }
    lo + hi * 0x1_0000_0000
}

/// The bytes `b[at..at + n]` as an array of `n` bytes, `n` being 4.
pub fn read_4(b: &[u8], at: usize) -> (r: [u8; 4])
    requires
        at + 4 <= b.len(),
    ensures
        r@ == b@.subrange(at as int, at + 4),
{
    let r = [b[at], b[at + 1], b[at + 2], b[at + 3]];
    proof {
        assert(r@ =~= b@.subrange(at as int, at + 4));
    }
    r
}

/// Fills `a` with the bytes `b[at..at + N]`.
pub fn read_into<const N: usize>(a: &mut [u8; N], b: &[u8], at: usize)
    requires
        at + N <= b.len(),
    ensures
        final(a)@ == b@.subrange(at as int, at + N),
{
    let mut i: usize = 0;
    while i < N
        invariant
            i <= N,
            at + N <= b.len(),
            a@.len() == N,
            forall|j: int| 0 <= j < i ==> #[trigger] a@[j] == b@[at + j],
        decreases N - i,
    {
        a.set(i, b[at + i]);
        i = i + 1;
    }
    proof {
        assert(a@ =~= b@.subrange(at as int, at + N));
    }
}

/// The bytes of a 32-bit value, least significant first, make it up; so do
/// the halves of a 64-bit value.
proof fn lemma_le_parts(x: u32, y: u64)
    by (bit_vector)
    ensures
        (x & 0xFF) + ((x >> 8u32) & 0xFF) * 0x100 + ((x >> 16u32) & 0xFF) * 0x1_0000 + ((x >> 24u32) & 0xFF)
            * 0x100_0000 == x,
        (y as u32) + ((y >> 32u64) as u32) * 0x1_0000_0000 == y,
{
}

/// Appends the four bytes of `x`, least significant first.
pub fn push_le32(v: &mut Vec<u8>, x: u32)
    ensures
        final(v)@.len() == old(v)@.len() + 4,
        final(v)@.subrange(0, old(v)@.len() as int) == old(v)@,
        forall|i: int| 0 <= i < old(v)@.len() ==> #[trigger] final(v)@[i] == old(v)@[i],
        le32(final(v)@, old(v)@.len() as int) == x,
{
    let ghost start = v@.len();
    proof {
        lemma_le_parts(x, 0);
        crate::util::bits::lemma_u32_and_le(x, 0xFF);
        crate::util::bits::lemma_u32_and_le(x >> 8u32, 0xFF);
        crate::util::bits::lemma_u32_and_le(x >> 16u32, 0xFF);
        crate::util::bits::lemma_u32_and_le(x >> 24u32, 0xFF);
    }
    v.push((x & 0xFF) as u8);
    v.push(((x >> 8) & 0xFF) as u8);
    v.push(((x >> 16) & 0xFF) as u8);
    v.push(((x >> 24) & 0xFF) as u8);
    proof {
        assert(v@.subrange(0, start as int) =~= old(v)@);
    }
}

/// Appends the eight bytes of `x`, least significant first.
pub fn push_le64(v: &mut Vec<u8>, x: u64)
    ensures
        final(v)@.len() == old(v)@.len() + 8,
        final(v)@.subrange(0, old(v)@.len() as int) == old(v)@,
        forall|i: int| 0 <= i < old(v)@.len() ==> #[trigger] final(v)@[i] == old(v)@[i],
        le64(final(v)@, old(v)@.len() as int) == x,
{
    let ghost start: int = v@.len() as int;
    proof {
        lemma_le_parts(0, x);
    }
    push_le32(v, x as u32);
    let ghost mid = v@;
    push_le32(v, (x >> 32) as u32);
    proof {
        assert(v@.subrange(0, start) =~= old(v)@) by {
            assert(v@.subrange(0, start + 4) =~= mid);
            assert(mid.subrange(0, start) =~= old(v)@);
        }
        assert(le32(v@, start) == le32(mid, start)) by {
            assert(v@.subrange(0, start + 4) =~= mid);
            assert(v@[start] == mid[start]);
            assert(v@[start + 1] == mid[start + 1]);
            assert(v@[start + 2] == mid[start + 2]);
            assert(v@[start + 3] == mid[start + 3]);
        }
    }
}

} // verus!
