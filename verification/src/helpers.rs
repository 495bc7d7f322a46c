use vstd::prelude::*;

verus! {

/// The big-endian 16-bit word made of `hi` and `lo`.
pub open spec fn be_word(hi: u8, lo: u8) -> int {
    hi as int * 256 + lo as int
}

/// The sum of the big-endian 16-bit words of `s`, an odd last byte padded
/// with a zero byte: the one's-complement checksum sum of the bytes.
pub open spec fn word_sum(s: Seq<u8>) -> int
    decreases s.len(),
{
    if s.len() == 0 {
        0
    } else if s.len() == 1 {
        be_word(s[0], 0)
    } else {
        be_word(s[0], s[1]) + word_sum(s.subrange(2, s.len() as int))
    }
}

/// Folds the carries of `s` back into its low 16 bits until it fits in 16
/// bits.
pub open spec fn fold16(s: int) -> int
    decreases s,
{
    if s < 0 || s < 0x10000 {
        s
    } else {
        fold16(s % 0x10000 + s / 0x10000)
    }
}

/// The values `start`, `start + step`, ... (`n` of them).
pub fn build_range(n: usize, start: u16, step: u16) -> (r: Vec<u16>)
    requires
        n > 0 ==> start + (n - 1) * step <= u16::MAX,
    ensures
        r@.len() == n,
        forall|i: int| 0 <= i < n ==> #[trigger] r@[i] == start + i * step,
{
    let mut arr: Vec<u16> = Vec::new();
    let mut i: usize = 0;
    while i < n
        invariant
            i <= n,
            arr@.len() == i,
            n > 0 ==> start + (n - 1) * step <= u16::MAX,
            forall|j: int| 0 <= j < i ==> #[trigger] arr@[j] == start + j * step,
        decreases n - i,
    {
        proof {
            assert(start + i * step <= start + (n - 1) * step) by (nonlinear_arith)
                requires i < n, step >= 0;
            if step > 0 {
                assert(i < 0x10000) by (nonlinear_arith)
                    requires i < n, step > 0, start + (n - 1) * step <= u16::MAX;
            }
        }
        let ii: u16 = if step == 0 { 0 } else { i as u16 };
        let v = start + ii * step;
        arr.push(v);
        i = i + 1;
    }
    arr
}

/// Folds the carries of a 32-bit one's-complement sum into 16 bits.
pub fn fold_sum(sum: u32) -> (r: u16)
    ensures
        r == fold16(sum as int),
{
    let mut s = sum;
    while s >> 16 != 0
        invariant
            fold16(s as int) == fold16(sum as int),
        decreases s,
    {
        proof {
            assert(s >> 16u32 == s / 0x10000 && s & 0xFFFF == s % 0x10000) by (bit_vector);
        }
        s = (s & 0xFFFF) + (s >> 16);
    }
    proof {
        assert(s >> 16u32 == 0 ==> s < 0x10000) by (bit_vector);
    }
    s as u16
}

/// The sum of the big-endian 16-bit words of `buf`.
pub fn sum_byte_arr(buf: &[u8]) -> (r: u32)
    requires
        word_sum(buf@) <= u32::MAX,
    ensures
        r == word_sum(buf@),
{
    let mut sum: u32 = 0;
    let mut i: usize = 0;
    let len = buf.len();
    proof {
        assert(buf@.subrange(0, len as int) =~= buf@);
    }
    while i < len
        invariant
            len == buf@.len(),
            i <= len,
            i % 2 == 0 || i == len,
            word_sum(buf@) <= u32::MAX,
            sum + word_sum(buf@.subrange(i as int, len as int)) == word_sum(buf@),
        decreases len - i,
    {
        let ghost rest = buf@.subrange(i as int, len as int);
        proof {
            lemma_word_sum_nonneg(rest);
        }
        if i + 1 < len {
            let word = (buf[i] as u16) * 256 + (buf[i + 1] as u16);
            proof {
                assert(rest.subrange(2, rest.len() as int) =~= buf@.subrange(i + 2, len as int));
                lemma_word_sum_nonneg(buf@.subrange(i + 2, len as int));
            }
            sum = sum + word as u32;
            i = i + 2;
        } else {
            let word = (buf[i] as u16) * 256;
            sum = sum + word as u32;
            i = len;
            proof {
                assert(buf@.subrange(i as int, len as int).len() == 0);
            }
        }
    }
    proof {
        assert(buf@.subrange(len as int, len as int).len() == 0);
    }
    sum
}

/// Word sums are never negative.
pub proof fn lemma_word_sum_nonneg(s: Seq<u8>)
    ensures
        word_sum(s) >= 0,
    decreases s.len(),
{
    if s.len() >= 2 {
        lemma_word_sum_nonneg(s.subrange(2, s.len() as int));
    }
}

/// The word sum of two byte strings joined, the first of even length, is
/// the sum of their word sums.
pub proof fn lemma_word_sum_concat(a: Seq<u8>, b: Seq<u8>)
    requires
        a.len() % 2 == 0,
    ensures
        word_sum(a + b) == word_sum(a) + word_sum(b),
    decreases a.len(),
{
    if a.len() == 0 {
        assert(a + b =~= b);
    } else {
        let ab = a + b;
        assert(ab.subrange(2, ab.len() as int) =~= a.subrange(2, a.len() as int) + b);
        lemma_word_sum_concat(a.subrange(2, a.len() as int), b);
    }
}

/// Folding keeps the value modulo 0xFFFF, ends in 16 bits, and gives 0
/// exactly for 0.
pub proof fn lemma_fold16(s: int)
    requires
        s >= 0,
    ensures
        0 <= fold16(s) <= 0xFFFF,
        fold16(s) % 0xFFFF == s % 0xFFFF,
        fold16(s) == 0 <==> s == 0,
    decreases s,
{
    if s >= 0x10000 {
        let t = s % 0x10000 + s / 0x10000;
        assert(t < s && t > 0 && t % 0xFFFF == s % 0xFFFF) by (nonlinear_arith)
            requires t == s % 0x10000 + s / 0x10000, s >= 0x10000;
        lemma_fold16(t);
    }
}

} // verus!
