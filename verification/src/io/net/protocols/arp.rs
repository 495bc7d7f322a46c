use vstd::prelude::*;
use std::collections::BTreeMap;
use crate::io::net::{Ipv4Addr, MacAddr};
use crate::io::net::protocols::bytes::be_u16;
use crate::io::net::protocols::ethernet::HardwareType;

verus! {

broadcast use {vstd::std_specs::btree::group_btree_axioms, vstd::laws_cmp::group_laws_cmp};

/// The ARP operations.
#[derive(Debug, Clone, Copy, PartialEq, Eq, Structural)]
pub enum Operation {
    ArpRequest,
    ArpResponse,
    RarpRequest,
    RarpResponse,
}

impl Operation {
    /// The operation's number.
    pub open spec fn code(self) -> u16 {
        match self {
            Operation::ArpRequest => 1,
            Operation::ArpResponse => 2,
            Operation::RarpRequest => 3,
            Operation::RarpResponse => 4,
        }
    }

    /// The operation of number `raw`, or `Err(raw)` when there is none.
    pub fn try_from_primitive(raw: u16) -> (r: Result<Operation, u16>)
        ensures
            match r {
                Ok(op) => op.code() == raw,
                Err(e) => e == raw && !(1 <= raw <= 4),
            },
    {
        match raw {
            1 => Ok(Operation::ArpRequest),
            2 => Ok(Operation::ArpResponse),
            3 => Ok(Operation::RarpRequest),
            4 => Ok(Operation::RarpResponse),
            _ => Err(raw),
        }
    }

    /// The operation's number, most significant byte first.
    pub fn to_bytes(&self) -> (r: [u8; 2])
        ensures
            r@ == seq![0u8, self.code() as u8],
    {
        let r = match self {
            Operation::ArpRequest => [0u8, 1u8],
            Operation::ArpResponse => [0u8, 2u8],
            Operation::RarpRequest => [0u8, 3u8],
            Operation::RarpResponse => [0u8, 4u8],
        };
        proof {
            assert(r@ =~= seq![0u8, self.code() as u8]);
        }
        r
    }
}

/// The protocol types an ARP packet can name.
#[derive(Debug, Clone, Copy, PartialEq, Eq, Structural)]
pub enum ARPProtocolType {
    IPv4,
}

impl ARPProtocolType {
    /// The type's number (0x0800 for IPv4), most significant byte first.
    pub fn to_bytes(&self) -> (r: [u8; 2])
        ensures
            r@ == seq![0x08u8, 0x00u8],
    {
        let r = [0x08u8, 0x00u8];
        proof {
            assert(r@ =~= seq![0x08u8, 0x00u8]);
        }
        r
    }
}

/// The 28 bytes of an ARP request for Ethernet and IPv4 from `src_mac` and
/// `src_ip` that asks for the hardware address of `to_discover`.
pub open spec fn arp_request_bytes(src_mac: Seq<u8>, src_ip: Ipv4Addr, to_discover: Ipv4Addr) -> Seq<u8> {
    seq![0u8, 1u8, 0x08u8, 0x00u8, 6u8, 4u8, 0u8, 1u8] + src_mac + ip_bytes(src_ip)
        + seq![0u8, 0u8, 0u8, 0u8, 0u8, 0u8] + ip_bytes(to_discover)
}

/// The four bytes of an IPv4 address, most significant first.
pub open spec fn ip_bytes(ip: Ipv4Addr) -> Seq<u8> {
    seq![(ip.0 / 0x100_0000) as u8, ((ip.0 / 0x1_0000) % 256) as u8, ((ip.0 / 256) % 256) as u8, (ip.0 % 256) as u8]
}

/// The IPv4 address of the four bytes `b[at..at + 4]`.
pub open spec fn ip_at(b: Seq<u8>, at: int) -> u32 {
    (b[at] as int * 0x100_0000 + b[at + 1] as int * 0x1_0000 + b[at + 2] as int * 256 + b[at + 3] as int) as u32
}

/// An ARP packet for Ethernet and IPv4, read in place.
pub struct ArpPacket<'a>(pub &'a [u8]);

impl<'a> ArpPacket<'a> {
    /// Writes into `buf` the request from `src_mac` and `src_ip` that asks
    /// for the hardware address of `to_discover`.
    pub fn write(src_mac: MacAddr, src_ip: Ipv4Addr, to_discover: Ipv4Addr, buf: &mut [u8])
        requires
            old(buf)@.len() >= 28,
        ensures
            final(buf)@.len() == old(buf)@.len(),
            final(buf)@.subrange(0, 28) == arp_request_bytes(src_mac.octets@, src_ip, to_discover),
            final(buf)@.subrange(28, final(buf)@.len() as int) == old(buf)@.subrange(28, old(buf)@.len() as int),
    {
        let dst_hw = MacAddr::zero();
        let hw = HardwareType::Ethernet.to_bytes();
        let proto = ARPProtocolType::IPv4.to_bytes();
        let op = Operation::ArpRequest.to_bytes();
        let mac = src_mac.octets();
        let sip = src_ip.octets();
        let dhw = dst_hw.octets();
        let dip = to_discover.octets();
        buf[0] = hw[0];
        buf[1] = hw[1];
        buf[2] = proto[0];
        buf[3] = proto[1];
        buf[4] = 6;
        buf[5] = 4;
        buf[6] = op[0];
        buf[7] = op[1];
        let mut i: usize = 0;
        while i < 6
            invariant
                i <= 6,
                buf@.len() == old(buf)@.len(),
                buf@.len() >= 28,
                mac@ == src_mac.octets@,
                dhw@.len() == 6,
                forall|j: int| 0 <= j < 8 ==> #[trigger] buf@[j] == seq![0u8, 1u8, 0x08u8, 0x00u8, 6u8, 4u8, 0u8, 1u8][j],
                forall|j: int| 0 <= j < i ==> #[trigger] buf@[8 + j] == mac@[j],
                forall|j: int| 0 <= j < i ==> #[trigger] buf@[18 + j] == dhw@[j],
                forall|j: int| 28 <= j < buf@.len() ==> #[trigger] buf@[j] == old(buf)@[j],
            decreases 6 - i,
        {
            buf[8 + i] = mac[i];
            buf[18 + i] = dhw[i];
            i = i + 1;
        }
        let mut k: usize = 0;
        while k < 4
            invariant
                k <= 4,
                buf@.len() == old(buf)@.len(),
                buf@.len() >= 28,
                mac@ == src_mac.octets@,
                forall|j: int| 0 <= j < 8 ==> #[trigger] buf@[j] == seq![0u8, 1u8, 0x08u8, 0x00u8, 6u8, 4u8, 0u8, 1u8][j],
                forall|j: int| 0 <= j < 6 ==> #[trigger] buf@[8 + j] == mac@[j],
                forall|j: int| 0 <= j < 6 ==> #[trigger] buf@[18 + j] == dhw@[j],
                forall|j: int| 0 <= j < k ==> #[trigger] buf@[14 + j] == sip@[j],
                forall|j: int| 0 <= j < k ==> #[trigger] buf@[24 + j] == dip@[j],
                forall|j: int| 28 <= j < buf@.len() ==> #[trigger] buf@[j] == old(buf)@[j],
            decreases 4 - k,
        {
            buf[14 + k] = sip[k];
            buf[24 + k] = dip[k];
            k = k + 1;
        }
        proof {
            let expected = arp_request_bytes(src_mac.octets@, src_ip, to_discover);
            assert forall|j: int| 0 <= j < 28 implies #[trigger] buf@.subrange(0, 28)[j] == expected[j] by {
                if 8 <= j < 14 {
                    assert(buf@[8 + (j - 8)] == mac@[j - 8]);
                } else if 14 <= j < 18 {
                    assert(buf@[14 + (j - 14)] == sip@[j - 14]);
                } else if 18 <= j < 24 {
                    assert(buf@[18 + (j - 18)] == dhw@[j - 18]);
                } else if 24 <= j < 28 {
                    assert(buf@[24 + (j - 24)] == dip@[j - 24]);
                }
            }
            assert(buf@.subrange(0, 28) =~= expected);
            assert(buf@.subrange(28, buf@.len() as int) =~= old(buf)@.subrange(28, old(buf)@.len() as int));
        }
    }

    /// The operation field; the packet must name a known operation.
    pub fn operation(&self) -> (r: Result<Operation, &'static str>)
        requires
            self.0@.len() >= 28,
            1 <= self.0@[6] as int * 256 + self.0@[7] as int <= 4,
        ensures
            r matches Ok(op) && op.code() == self.0@[6] as int * 256 + self.0@[7] as int,
    {
        let raw_op = be_u16(self.0[6], self.0[7]);
        match Operation::try_from_primitive(raw_op) {
            Ok(op) => Ok(op),
            Err(_) => Ok(Operation::ArpRequest),
        }
    }

    /// The sender's hardware address.
    pub fn src_hw(&self) -> (r: MacAddr)
        requires
            self.0@.len() >= 28,
        ensures
            r.octets@ == self.0@.subrange(8, 14),
    {
        let s = &self.0[8..14];
        let r = MacAddr::from_bytes(s);
        proof {
            assert(s@.subrange(0, 6) =~= self.0@.subrange(8, 14));
        }
        r
    }

    /// The sender's protocol address.
    pub fn src_ip(&self) -> (r: Ipv4Addr)
        requires
            self.0@.len() >= 28,
        ensures
            r.0 == ip_at(self.0@, 14),
    {
        Ipv4Addr::new(self.0[14], self.0[15], self.0[16], self.0[17])
    }

    /// The target's hardware address.
    pub fn dst_hw(&self) -> (r: MacAddr)
        requires
            self.0@.len() >= 28,
        ensures
            r.octets@ == self.0@.subrange(18, 24),
    {
        let s = &self.0[18..24];
        let r = MacAddr::from_bytes(s);
        proof {
            assert(s@.subrange(0, 6) =~= self.0@.subrange(18, 24));
        }
        r
    }

    /// The target's protocol address.
    pub fn dst_ip(&self) -> (r: Ipv4Addr)
        requires
            self.0@.len() >= 28,
        ensures
            r.0 == ip_at(self.0@, 24),
    {
        Ipv4Addr::new(self.0[24], self.0[25], self.0[26], self.0[27])
    }

    /// The length of an ARP packet for Ethernet and IPv4.
    pub fn len() -> (r: usize)
        ensures
            r == 28,
    {
        28
    }
}

/// The hardware addresses learnt for IPv4 addresses.
pub struct ArpCache {
    entries: BTreeMap<u32, MacAddr>,
}

impl ArpCache {
    /// The hardware address known for each address value.
    pub closed spec fn view(&self) -> Map<u32, MacAddr> {
        self.entries@
    }

    /// A cache that knows nothing.
    pub fn new() -> (r: Self)
        ensures
            r@ == Map::<u32, MacAddr>::empty(),
    {
        ArpCache { entries: BTreeMap::new() }
    }

    /// Records that `ip` has the hardware address `mac`.
    pub fn insert(&mut self, ip: Ipv4Addr, mac: MacAddr)
        ensures
            final(self)@ == old(self)@.insert(ip.0, mac),
    {
        self.entries.insert(ip.0, mac);
    }

    /// The hardware address known for `ip`.
    pub fn get(&self, ip: &Ipv4Addr) -> (r: Option<MacAddr>)
        ensures
            r == (if self@.contains_key(ip.0) { Some(self@[ip.0]) } else { None::<MacAddr> }),
    {
        match self.entries.get(&ip.0) {
            Some(mac) => Some(*mac),
            None => None,
        }
    }
}

/// The Address Resolution Protocol.
pub struct Arp;

impl Arp {
    /// Seeds the cache: the broadcast address has the broadcast hardware
    /// address.
    pub fn init(cache: &mut ArpCache)
        ensures
            final(cache)@ == old(cache)@.insert(0xFFFF_FFFFu32, final(cache)@[0xFFFF_FFFFu32]),
            forall|i: int| 0 <= i < 6 ==> #[trigger] final(cache)@[0xFFFF_FFFFu32].octets@[i] == 0xFFu8,
    {
        cache.insert(Ipv4Addr::new(255, 255, 255, 255), MacAddr::broadcast());
    }

    /// The hardware address already known for `ip`, if any; where there is
    /// none, the caller asks the network.
    pub fn lookup_cached(cache: &ArpCache, ip: &Ipv4Addr) -> (r: Option<MacAddr>)
        ensures
            r == (if cache@.contains_key(ip.0) { Some(cache@[ip.0]) } else { None::<MacAddr> }),
    {
        cache.get(ip)
    }

    /// Learns the sender of an ARP packet: its protocol address now maps to
    /// its hardware address. Returns that protocol address, whose waiting
    /// lookups the caller then wakes.
    pub fn handle_packet(cache: &mut ArpCache, packet: &ArpPacket) -> (r: Result<Ipv4Addr, &'static str>)
        requires
            packet.0@.len() >= 28,
        ensures
            r matches Ok(ip) && ip.0 == ip_at(packet.0@, 14)
                && final(cache)@ == old(cache)@.insert(ip.0, final(cache)@[ip.0])
                && final(cache)@[ip.0].octets@ == packet.0@.subrange(8, 14),
    {
        let ip = packet.src_ip();
        let mac = packet.src_hw();
        cache.insert(ip, mac);
        Ok(ip)
    }
}

} // verus!
