use vstd::prelude::*;
use crate::helpers::{be_word, word_sum, fold16, lemma_word_sum_concat, lemma_word_sum_nonneg, lemma_fold16};
use crate::io::net::Ipv4Addr;

verus! {

/// The two bytes of `v`, most significant first.
pub open spec fn be16(v: u16) -> Seq<u8> {
    seq![(v / 256) as u8, (v % 256) as u8]
}

/// The four bytes of `v`, most significant first.
pub open spec fn be32(v: u32) -> Seq<u8> {
    seq![(v / 0x100_0000) as u8, ((v / 0x1_0000) % 256) as u8, ((v / 256) % 256) as u8, (v % 256) as u8]
}

/// The 16-bit words of an IPv4 address, summed.
pub open spec fn ip_word_sum(ip: Ipv4Addr) -> int {
    ip.0 / 0x1_0000 + ip.0 % 0x1_0000
}

/// The one's-complement sum of the IPv4 pseudo header of a segment of
/// `len` bytes of protocol `proto` from `src` to `dst`.
pub open spec fn pseudo_header_sum_of(src: Ipv4Addr, dst: Ipv4Addr, proto: u8, len: int) -> int {
    ip_word_sum(src) + ip_word_sum(dst) + proto + len
}

/// The sum that a sender folds into the checksum: every word of `raw`
/// except the checksum field at byte `at`, plus the pseudo header.
pub open spec fn send_sum_of(raw: Seq<u8>, at: int, src: Ipv4Addr, dst: Ipv4Addr, proto: u8) -> int {
    word_sum(raw.subrange(0, at)) + word_sum(raw.subrange(at + 2, raw.len() as int))
        + pseudo_header_sum_of(src, dst, proto, raw.len() as int)
}

/// The checksum a sender writes: the complement of the folded send sum.
pub open spec fn send_checksum_of(raw: Seq<u8>, at: int, src: Ipv4Addr, dst: Ipv4Addr, proto: u8) -> u16 {
    (0xFFFF - fold16(send_sum_of(raw, at, src, dst, proto))) as u16
}

/// What a receiver computes: the folded sum of every word of `raw`, plus
/// the pseudo header; 0xFFFF for an intact segment.
pub open spec fn recv_checksum_of(raw: Seq<u8>, src: Ipv4Addr, dst: Ipv4Addr, proto: u8) -> int {
    fold16(word_sum(raw) + pseudo_header_sum_of(src, dst, proto, raw.len() as int))
}

/// Appends the two bytes of `x`, most significant first.
pub fn push_be16(v: &mut Vec<u8>, x: u16)
    ensures
        final(v)@ == old(v)@ + be16(x),
{
    v.push((x >> 8) as u8);
    v.push((x & 0xFF) as u8);
    proof {
        crate::util::bits::lemma_u16_bytes(x);
        assert(final(v)@ =~= old(v)@ + be16(x));
    }
}

/// Appends the four bytes of `x`, most significant first.
pub fn push_be32(v: &mut Vec<u8>, x: u32)
    ensures
        final(v)@ == old(v)@ + be32(x),
{
    v.push((x >> 24) as u8);
    v.push(((x >> 16) & 0xFF) as u8);
    v.push(((x >> 8) & 0xFF) as u8);
    v.push((x & 0xFF) as u8);
    proof {
        crate::util::bits::lemma_u32_bytes(x);
        assert(final(v)@ =~= old(v)@ + be32(x));
    }
}

/// The big-endian 16-bit value of `hi` and `lo`.
pub fn be_u16(hi: u8, lo: u8) -> (r: u16)
    ensures
        r == be_word(hi, lo),
{
    (hi as u16) * 256 + (lo as u16)
}

/// The big-endian 32-bit value of four bytes.
pub fn be_u32(a: u8, b: u8, c: u8, d: u8) -> (r: u32)
    ensures
        r == a as int * 0x100_0000 + b as int * 0x1_0000 + c as int * 256 + d as int,
{
    (a as u32) * 0x100_0000 + (b as u32) * 0x1_0000 + (c as u32) * 256 + (d as u32)
}

/// The sum of the pseudo header of a segment of `len` bytes.
pub fn pseudo_header_sum(src: &Ipv4Addr, dst: &Ipv4Addr, proto: u8, len: usize) -> (r: u32)
    requires
        pseudo_header_sum_of(*src, *dst, proto, len as int) <= u32::MAX,
    ensures
        r == pseudo_header_sum_of(*src, *dst, proto, len as int),
{
    let mut sum: u32 = 0;
    let s = src.octets();
    let d = dst.octets();
    proof {
        let a = src.0;
        let b = dst.0;
        crate::util::bits::lemma_u32_halves(a);
        crate::util::bits::lemma_u32_halves(b);
    }
    sum = sum + be_u16(s[0], s[1]) as u32;
    sum = sum + be_u16(s[2], s[3]) as u32;
    sum = sum + be_u16(d[0], d[1]) as u32;
    sum = sum + be_u16(d[2], d[3]) as u32;
    sum = sum + proto as u32;
    sum = sum + len as u32;
    sum
}

/// A segment whose checksum field at `at` holds the send checksum is
/// intact: the receiver's folded sum is 0xFFFF.
pub proof fn lemma_checksum_round_trip(raw: Seq<u8>, at: int, src: Ipv4Addr, dst: Ipv4Addr, proto: u8)
    requires
        0 <= at,
        at + 2 <= raw.len(),
        at % 2 == 0,
        proto > 0,
        raw.subrange(at, at + 2) == be16(send_checksum_of(raw, at, src, dst, proto)),
    ensures
        recv_checksum_of(raw, src, dst, proto) == 0xFFFF,
{
    let head = raw.subrange(0, at);
    let mid = raw.subrange(at, at + 2);
    let tail = raw.subrange(at + 2, raw.len() as int);
    assert(raw =~= head + (mid + tail));
    lemma_word_sum_concat(head, mid + tail);
    lemma_word_sum_concat(mid, tail);
    let s = send_sum_of(raw, at, src, dst, proto);
    lemma_word_sum_nonneg(head);
    lemma_word_sum_nonneg(tail);
    lemma_fold16(s);
    let c = send_checksum_of(raw, at, src, dst, proto);
    assert(word_sum(mid) == c) by {
        assert(mid == be16(c));
        assert(mid.len() == 2);
        let e = mid.subrange(2, 2);
        assert(e =~= Seq::<u8>::empty());
        assert(word_sum(e) == 0);
        assert(mid[0] as int == c / 256);
        assert(mid[1] as int == c % 256);
        assert(word_sum(mid) == be_word(mid[0], mid[1]) + word_sum(e));
    }
    let t = word_sum(raw) + pseudo_header_sum_of(src, dst, proto, raw.len() as int);
    assert(t == s + c);
    assert(t > 0);
    lemma_fold16(t);
    assert(t % 0xFFFF == 0) by (nonlinear_arith)
        requires t == s + (0xFFFF - fold16(s)), fold16(s) % 0xFFFF == s % 0xFFFF, 0 <= fold16(s) <= 0xFFFF, s >= 0;
}

} // verus!
