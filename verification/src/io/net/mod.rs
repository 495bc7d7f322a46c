use vstd::prelude::*;
use vstd::arithmetic::power2::pow2;

pub mod protocols;

verus! {

/// An IPv4 address, held as its 32-bit value.
#[derive(Clone, Copy, PartialEq, Eq, Structural, PartialOrd, Ord, Hash, Debug)]
pub struct Ipv4Addr(pub u32);

/// The byte `i` (0 the most significant) of an IPv4 address of value `v`.
pub open spec fn ip_octet(v: u32, i: int) -> u8 {
    ((v as int / pow2((24 - 8 * i) as nat) as int) % 256) as u8
}

impl Ipv4Addr {
    /// The address `a.b.c.d`.
    pub fn new(a: u8, b: u8, c: u8, d: u8) -> (r: Self)
        ensures
            r.0 == a as int * 0x100_0000 + b as int * 0x1_0000 + c as int * 256 + d as int,
    {
        Ipv4Addr((a as u32) * 0x100_0000 + (b as u32) * 0x1_0000 + (c as u32) * 256 + (d as u32))
    }

    /// The four bytes of the address, most significant first.
    pub fn octets(&self) -> (r: [u8; 4])
        ensures
            r@ == seq![(self.0 / 0x100_0000) as u8, ((self.0 / 0x1_0000) % 256) as u8, ((self.0 / 256) % 256) as u8, (self.0 % 256) as u8],
    {
        let v = self.0;
        let r = [(v >> 24) as u8, ((v >> 16) & 0xFF) as u8, ((v >> 8) & 0xFF) as u8, (v & 0xFF) as u8];
        proof {
            crate::util::bits::lemma_u32_bytes(v);
            assert(r@ =~= seq![(v / 0x100_0000) as u8, ((v / 0x1_0000) % 256) as u8, ((v / 256) % 256) as u8, (v % 256) as u8]);
        }
        r
    }
}

/// An Ethernet hardware address.
#[derive(Clone, Copy, PartialEq, Eq, Debug)]
pub struct MacAddr {
    pub octets: [u8; 6],
}

impl MacAddr {
    /// The address made of the first six bytes of `bytes`.
    pub fn from_bytes(bytes: &[u8]) -> (r: Self)
        requires
            bytes@.len() >= 6,
        ensures
            r.octets@ == bytes@.subrange(0, 6),
    {
        let r = MacAddr { octets: [bytes[0], bytes[1], bytes[2], bytes[3], bytes[4], bytes[5]] };
        proof {
            assert(r.octets@ =~= bytes@.subrange(0, 6));
        }
        r
    }

    /// The address ff:ff:ff:ff:ff:ff.
    pub fn broadcast() -> (r: Self)
        ensures
            forall|i: int| 0 <= i < 6 ==> #[trigger] r.octets@[i] == 0xFFu8,
    {
        MacAddr { octets: [0xFF, 0xFF, 0xFF, 0xFF, 0xFF, 0xFF] }
    }

    /// The address 00:00:00:00:00:00.
    pub fn zero() -> (r: Self)
        ensures
            forall|i: int| 0 <= i < 6 ==> #[trigger] r.octets@[i] == 0u8,
    {
        MacAddr { octets: [0, 0, 0, 0, 0, 0] }
    }

    /// The six bytes of the address.
    pub fn octets(&self) -> (r: [u8; 6])
        ensures
            r@ == self.octets@,
    {
        self.octets
    }
}

/// The protocols an IPv4 header can name.
#[derive(Clone, Copy, PartialEq, Eq, Structural, Debug)]
pub enum IPProtocol {
    ICMP,
    TCP,
    UDP,
}

impl IPProtocol {
    /// The protocol's number in the IPv4 header.
    pub open spec fn spec_number(self) -> u8 {
        match self {
            IPProtocol::ICMP => 1,
            IPProtocol::TCP => 6,
            IPProtocol::UDP => 17,
        }
    }

    /// The protocol's number in the IPv4 header.
    pub fn number(self) -> (r: u8)
        ensures
            r == self.spec_number(),
    {
        match self {
            IPProtocol::ICMP => 1,
            IPProtocol::TCP => 6,
            IPProtocol::UDP => 17,
        }
    }
}

} // verus!
