use vstd::prelude::*;
use crate::helpers::{word_sum, fold_sum, sum_byte_arr, lemma_word_sum_nonneg};
use crate::io::net::{Ipv4Addr, IPProtocol};
use crate::io::net::protocols::bytes::{
    be16, push_be16, be_u16, pseudo_header_sum, pseudo_header_sum_of, send_sum_of, send_checksum_of,
    recv_checksum_of, lemma_checksum_round_trip,
};

verus! {

/// The protocol number of UDP in the IPv4 header.
pub const UDP_PROTOCOL: u8 = 17;

/// The offset of the checksum field in the UDP header.
pub const UDP_CHECKSUM_OFFSET: usize = 6;

/// A UDP header with the checksum field `checksum` for `len` bytes of data.
pub open spec fn udp_header(src_port: u16, dst_port: u16, len: int, checksum: u16) -> Seq<u8> {
    be16(src_port) + be16(dst_port) + be16(((8 + len) % 0x1_0000) as u16) + be16(checksum)
}

/// The end points of a UDP exchange.
pub struct UdpConnection {
    src_ip: Ipv4Addr,
    dst_ip: Ipv4Addr,
    src_port: u16,
    dst_port: u16,
}

impl UdpConnection {
    pub closed spec fn src_ip_spec(&self) -> Ipv4Addr { self.src_ip }
    pub closed spec fn dst_ip_spec(&self) -> Ipv4Addr { self.dst_ip }
    pub closed spec fn src_port_spec(&self) -> u16 { self.src_port }
    pub closed spec fn dst_port_spec(&self) -> u16 { self.dst_port }

    /// The exchange between the given end points.
    pub fn new(src_ip: Ipv4Addr, dst_ip: Ipv4Addr, src_port: u16, dst_port: u16) -> (r: Self)
        ensures
            r.src_ip_spec() == src_ip,
            r.dst_ip_spec() == dst_ip,
            r.src_port_spec() == src_port,
            r.dst_port_spec() == dst_port,
    {
        Self { src_ip, dst_ip, dst_port, src_port }
    }

    /// The local port, to which the socket table binds the exchange.
    pub fn src_port(&self) -> (r: u16)
        ensures r == self.src_port_spec(),
    {
        self.src_port
    }

    /// The local address.
    pub fn src_ip(&self) -> (r: Ipv4Addr)
        ensures r == self.src_ip_spec(),
    {
        self.src_ip
    }

    /// The remote address.
    pub fn dst_ip(&self) -> (r: Ipv4Addr)
        ensures r == self.dst_ip_spec(),
    {
        self.dst_ip
    }
}

/// A UDP datagram (header and data) between two IPv4 addresses.
pub struct UdpPacket {
    src: Ipv4Addr,
    dst: Ipv4Addr,
    buf: Vec<u8>,
}

impl UdpPacket {
    /// The bytes of the datagram.
    pub closed spec fn raw_spec(&self) -> Seq<u8> {
        self.buf@
    }

    /// The sending address the checksum covers.
    pub closed spec fn src_spec(&self) -> Ipv4Addr {
        self.src
    }

    /// The receiving address the checksum covers.
    pub closed spec fn dst_spec(&self) -> Ipv4Addr {
        self.dst
    }

    /// The checksum a receiver computes over this datagram.
    pub open spec fn recv_checksum_spec(&self) -> int {
        recv_checksum_of(self.raw_spec(), self.src_spec(), self.dst_spec(), UDP_PROTOCOL)
    }

    /// The datagram `conn` sends with the data `data`; its length field
    /// holds the header and data length taken modulo 2^16, and its checksum
    /// makes the datagram intact.
    pub fn new(conn: &UdpConnection, data: &[u8]) -> (r: Self)
        requires
            8 + data@.len() <= usize::MAX,
            send_sum_of(udp_header(conn.src_port_spec(), conn.dst_port_spec(), data@.len() as int, 0) + data@,
                UDP_CHECKSUM_OFFSET as int, conn.src_ip_spec(), conn.dst_ip_spec(), UDP_PROTOCOL) <= u32::MAX,
        ensures
            r.src_spec() == conn.src_ip_spec(),
            r.dst_spec() == conn.dst_ip_spec(),
            r.raw_spec() == udp_header(conn.src_port_spec(), conn.dst_port_spec(), data@.len() as int,
                send_checksum_of(udp_header(conn.src_port_spec(), conn.dst_port_spec(), data@.len() as int, 0) + data@,
                    UDP_CHECKSUM_OFFSET as int, conn.src_ip_spec(), conn.dst_ip_spec(), UDP_PROTOCOL)) + data@,
            r.recv_checksum_spec() == 0xFFFF,
    {
        let total_length = Self::header_len() + data.len();
        let mut buf: Vec<u8> = Vec::new();
        push_be16(&mut buf, conn.src_port);
        push_be16(&mut buf, conn.dst_port);
        let len16: u16 = (total_length % 0x1_0000) as u16;
        push_be16(&mut buf, len16);
        push_be16(&mut buf, 0);
        let ghost header0 = udp_header(conn.src_port, conn.dst_port, data@.len() as int, 0);
        proof {
            assert(buf@ =~= header0);
        }
        let mut i: usize = 0;
        while i < data.len()
            invariant
                i <= data@.len(),
                buf@ == header0 + data@.subrange(0, i as int),
            decreases data@.len() - i,
        {
            buf.push(data[i]);
            i = i + 1;
            proof {
                assert(buf@ =~= header0 + data@.subrange(0, i as int));
            }
        }
        proof {
            assert(data@.subrange(0, data@.len() as int) =~= data@);
        }
        let ghost raw0 = buf@;
        let mut packet = UdpPacket { src: conn.src_ip, dst: conn.dst_ip, buf };
        let checksum = packet.calculate_send_checksum();
        packet.buf[6] = (checksum >> 8) as u8;
        packet.buf[7] = (checksum & 0xFF) as u8;
        proof {
            let c = send_checksum_of(raw0, 6, conn.src_ip, conn.dst_ip, UDP_PROTOCOL);
            crate::util::bits::lemma_u16_bytes(checksum);
            let header = udp_header(conn.src_port, conn.dst_port, data@.len() as int, c);
            assert(packet.buf@ =~= header + data@);
            let raw = packet.buf@;
            assert(raw.subrange(0, 6) =~= raw0.subrange(0, 6));
            assert(raw.subrange(8, raw.len() as int) =~= raw0.subrange(8, raw0.len() as int));
            assert(raw.subrange(6, 8) =~= be16(c));
            lemma_checksum_round_trip(raw, 6, conn.src_ip, conn.dst_ip, UDP_PROTOCOL);
        }
        packet
    }

    /// The datagram `data` that `conn` received: it was sent from the
    /// peer's address to the own one.
    pub fn from(conn: &UdpConnection, data: Vec<u8>) -> (r: Self)
        ensures
            r.src_spec() == conn.dst_ip_spec(),
            r.dst_spec() == conn.src_ip_spec(),
            r.raw_spec() == data@,
    {
        Self { src: conn.dst_ip, dst: conn.src_ip, buf: data }
    }

    /// The source port field.
    pub fn src_port(&self) -> (r: u16)
        requires
            self.raw_spec().len() >= 8,
        ensures
            r == self.raw_spec()[0] as int * 256 + self.raw_spec()[1] as int,
    {
        be_u16(self.buf[0], self.buf[1])
    }

    /// The destination port field.
    pub fn dst_port(&self) -> (r: u16)
        requires
            self.raw_spec().len() >= 8,
        ensures
            r == self.raw_spec()[2] as int * 256 + self.raw_spec()[3] as int,
    {
        be_u16(self.buf[2], self.buf[3])
    }

    /// The length field.
    pub fn len(&self) -> (r: u16)
        requires
            self.raw_spec().len() >= 8,
        ensures
            r == self.raw_spec()[4] as int * 256 + self.raw_spec()[5] as int,
    {
        be_u16(self.buf[4], self.buf[5])
    }

    /// The checksum field.
    pub fn checksum(&self) -> (r: u16)
        requires
            self.raw_spec().len() >= 8,
        ensures
            r == self.raw_spec()[6] as int * 256 + self.raw_spec()[7] as int,
    {
        be_u16(self.buf[6], self.buf[7])
    }

    /// The data after the 8-byte header.
    pub fn data(&self) -> (r: &[u8])
        requires
            self.raw_spec().len() >= 8,
        ensures
            r@ == self.raw_spec().subrange(8, self.raw_spec().len() as int),
    {
        let raw = self.buf.as_slice();
        &raw[Self::header_len()..raw.len()]
    }

    /// The bytes of the datagram.
    pub fn raw(&self) -> (r: &[u8])
        ensures
            r@ == self.raw_spec(),
    {
        self.buf.as_slice()
    }

    /// The length of the UDP header.
    pub fn header_len() -> (r: usize)
        ensures
            r == 8,
    {
        8
    }

    /// The sum of the IPv4 pseudo header of this datagram.
    pub fn pseudo_header_sum(&self) -> (r: u32)
        requires
            pseudo_header_sum_of(self.src_spec(), self.dst_spec(), UDP_PROTOCOL, self.raw_spec().len() as int) <= u32::MAX,
        ensures
            r == pseudo_header_sum_of(self.src_spec(), self.dst_spec(), UDP_PROTOCOL, self.raw_spec().len() as int),
    {
        pseudo_header_sum(&self.src, &self.dst, IPProtocol::UDP.number(), self.buf.len())
    }

    /// The receiver's checksum: 0xFFFF for an intact datagram.
    pub fn calculate_recv_checksum(&self) -> (r: u16)
        requires
            word_sum(self.raw_spec()) + pseudo_header_sum_of(self.src_spec(), self.dst_spec(), UDP_PROTOCOL, self.raw_spec().len() as int) <= u32::MAX,
        ensures
            r == self.recv_checksum_spec(),
    {
        proof {
            lemma_word_sum_nonneg(self.buf@);
        }
        let raw = self.buf.as_slice();
        fold_sum(sum_byte_arr(raw) + self.pseudo_header_sum())
    }

    /// The sender's checksum: the complement of the folded sum of every word
    /// but the checksum field, and the pseudo header.
    pub fn calculate_send_checksum(&self) -> (r: u16)
        requires
            self.raw_spec().len() >= 8,
            send_sum_of(self.raw_spec(), UDP_CHECKSUM_OFFSET as int, self.src_spec(), self.dst_spec(), UDP_PROTOCOL) <= u32::MAX,
        ensures
            r == send_checksum_of(self.raw_spec(), UDP_CHECKSUM_OFFSET as int, self.src_spec(), self.dst_spec(), UDP_PROTOCOL),
    {
        let raw = self.buf.as_slice();
        let len = raw.len();
        let head = &raw[0..6];
        let tail = &raw[8..len];
        proof {
            lemma_word_sum_nonneg(head@);
            lemma_word_sum_nonneg(tail@);
        }
        let sum = fold_sum(sum_byte_arr(head) + sum_byte_arr(tail) + self.pseudo_header_sum());
        proof {
            crate::util::bits::lemma_u16_not(sum);
        }
        !sum
    }
}

} // verus!
