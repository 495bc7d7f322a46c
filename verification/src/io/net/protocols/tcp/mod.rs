use vstd::prelude::*;
use crate::helpers::{word_sum, fold_sum, sum_byte_arr, lemma_word_sum_nonneg};
use crate::io::net::{Ipv4Addr, IPProtocol};
use crate::io::net::protocols::bytes::{
    be16, be32, push_be16, push_be32, be_u16, be_u32, pseudo_header_sum, pseudo_header_sum_of,
    send_sum_of, send_checksum_of, recv_checksum_of, lemma_checksum_round_trip,
};

pub mod flag;

verus! {

/// The protocol number of TCP in the IPv4 header.
pub const TCP_PROTOCOL: u8 = 6;

/// The length of a TCP header without options: five 32-bit words.
pub const HEADER_LEN: usize = 20;

/// The offset of the checksum field in the TCP header.
pub const CHECKSUM_OFFSET: usize = 16;

/// The states of a TCP connection.
#[derive(PartialEq, Eq, Structural, Debug, Clone, Copy)]
pub enum TcpState {
    SYNSENT,
    ESTABLISHED,
    FINWAIT1,
    FINWAIT2,
    CLOSEWAIT,
    CLOSING,
    LASTACK,
    TIMEWAIT,
    CLOSED,
}

/// Why a segment was refused or a step of opening or closing failed.
#[derive(PartialEq, Eq, Structural, Debug, Clone, Copy)]
pub enum TcpError {
    /// The receiver's folded checksum was not 0xFFFF.
    ChecksumMismatch(u16),
    /// The acknowledgement number was not the own sequence number plus one.
    AckMismatch { received: u32, expected: u32 },
    /// The peer set the reset flag.
    ConnectionReset,
    /// Only a closed connection can be opened.
    NotClosed,
    /// The answer to SYN was not SYN/ACK.
    NoSynAck,
    /// The answer to FIN/ACK was not ACK.
    NoAckForFin,
    /// The peer's closing segment was not FIN/ACK.
    NoFinAckForFin,
}

/// The window size that every segment advertises.
pub const WINDOW_SIZE: u16 = 0x0FFF;

/// A TCP header without options, with the checksum field `checksum` and a
/// zero urgent pointer.
pub open spec fn tcp_header(src_port: u16, dst_port: u16, seq: u32, ack: u32, flags: u8, checksum: u16) -> Seq<u8> {
    be16(src_port) + be16(dst_port) + be32(seq) + be32(ack) + seq![0x50u8, flags]
        + be16(WINDOW_SIZE) + be16(checksum) + seq![0u8, 0u8]
}

/// The end point of a TCP connection, and where it stands.
pub struct TcpConnection {
    src_ip: Ipv4Addr,
    dst_ip: Ipv4Addr,
    src_port: u16,
    dst_port: u16,
    ack_num: u32,
    seq_num: u32,
    state: TcpState,
}

impl TcpConnection {
    pub closed spec fn src_ip_spec(&self) -> Ipv4Addr { self.src_ip }
    pub closed spec fn dst_ip_spec(&self) -> Ipv4Addr { self.dst_ip }
    pub closed spec fn src_port_spec(&self) -> u16 { self.src_port }
    pub closed spec fn dst_port_spec(&self) -> u16 { self.dst_port }
    pub closed spec fn ack_num_spec(&self) -> u32 { self.ack_num }
    pub closed spec fn seq_num_spec(&self) -> u32 { self.seq_num }
    pub closed spec fn state_spec(&self) -> TcpState { self.state }

    /// A closed connection between the given end points, with both
    /// sequence numbers 0.
    pub fn from_parts(src_ip: Ipv4Addr, dst_ip: Ipv4Addr, src_port: u16, dst_port: u16) -> (r: Self)
        ensures
            r.src_ip_spec() == src_ip,
            r.dst_ip_spec() == dst_ip,
            r.src_port_spec() == src_port,
            r.dst_port_spec() == dst_port,
            r.ack_num_spec() == 0,
            r.seq_num_spec() == 0,
            r.state_spec() == TcpState::CLOSED,
    {
        TcpConnection { src_ip, dst_ip, src_port, dst_port, ack_num: 0, seq_num: 0, state: TcpState::CLOSED }
    }

    /// The local address.
    pub fn src_ip(&self) -> (r: Ipv4Addr)
        ensures r == self.src_ip_spec(),
    {
        self.src_ip
    }

    /// The remote address.
    pub fn dst_ip(&self) -> (r: Ipv4Addr)
        ensures r == self.dst_ip_spec(),
    {
        self.dst_ip
    }

    /// The local port.
    pub fn src_port(&self) -> (r: u16)
        ensures r == self.src_port_spec(),
    {
        self.src_port
    }

    /// The remote port.
    pub fn dst_port(&self) -> (r: u16)
        ensures r == self.dst_port_spec(),
    {
        self.dst_port
    }

    /// The next sequence number expected from the peer.
    pub fn ack_num(&self) -> (r: u32)
        ensures r == self.ack_num_spec(),
    {
        self.ack_num
    }

    /// The own sequence number.
    pub fn seq_num(&self) -> (r: u32)
        ensures r == self.seq_num_spec(),
    {
        self.seq_num
    }

    /// The state of the connection.
    pub fn state(&self) -> (r: TcpState)
        ensures r == self.state_spec(),
    {
        self.state
    }

    /// The first step of opening: refused unless the connection is closed;
    /// otherwise the initial sequence number 0xdeadbeef is taken and the
    /// connection waits for SYN/ACK.
    pub fn begin_open(&mut self) -> (r: Result<(), TcpError>)
        ensures
            old(self).state_spec() != TcpState::CLOSED ==> r == Err::<(), TcpError>(TcpError::NotClosed) && *final(self) == *old(self),
            old(self).state_spec() == TcpState::CLOSED ==> r is Ok
                && final(self).seq_num_spec() == 0xdeadbeef
                && final(self).state_spec() == TcpState::SYNSENT
                && final(self).ack_num_spec() == old(self).ack_num_spec()
                && final(self).same_end_points(*old(self)),
    {
        if self.state != TcpState::CLOSED {
            return Err(TcpError::NotClosed);
        }
        self.seq_num = 0xdeadbeef;
        self.state = TcpState::SYNSENT;
        Ok(())
    }

    /// Both connections join the same end points.
    pub open spec fn same_end_points(self, other: Self) -> bool {
        &&& self.src_ip_spec() == other.src_ip_spec()
        &&& self.dst_ip_spec() == other.dst_ip_spec()
        &&& self.src_port_spec() == other.src_port_spec()
        &&& self.dst_port_spec() == other.dst_port_spec()
    }

    /// Records a received segment: the next expected sequence number is the
    /// segment's sequence number plus what it occupies.
    pub fn record_received(&mut self, packet: &TcpPacket)
        requires
            packet.raw_spec().len() >= HEADER_LEN,
            packet.data_start() <= packet.raw_spec().len(),
            packet.seq_num_of() + packet.seq_advance_of() <= u32::MAX,
        ensures
            final(self).ack_num_spec() == packet.seq_num_of() + packet.seq_advance_of(),
            final(self).seq_num_spec() == old(self).seq_num_spec(),
            final(self).state_spec() == old(self).state_spec(),
            final(self).same_end_points(*old(self)),
    {
        self.ack_num = packet.seq_num() + packet.calc_seq_advance();
    }

    /// Records the peer's answer to a segment that occupied `seq_advance`
    /// sequence numbers: when the answer acknowledges, the own sequence
    /// number moves on by `seq_advance`.
    pub fn record_acknowledged(&mut self, answer: &TcpPacket, seq_advance: u32)
        requires
            answer.raw_spec().len() >= HEADER_LEN,
            old(self).seq_num_spec() + seq_advance <= u32::MAX,
        ensures
            final(self).seq_num_spec() == (if answer.flags_of() & flag::ACK > 0 {
                old(self).seq_num_spec() + seq_advance
            } else {
                old(self).seq_num_spec() as int
            }),
            final(self).ack_num_spec() == old(self).ack_num_spec(),
            final(self).state_spec() == old(self).state_spec(),
            final(self).same_end_points(*old(self)),
    {
        if answer.flags() & flag::ACK > 0 {
            self.seq_num = self.seq_num + seq_advance;
        }
    }

    /// The second step of opening: the answer to SYN must carry exactly
    /// SYN and ACK; then the connection is established.
    pub fn finish_open(&mut self, synack: &TcpPacket) -> (r: Result<(), TcpError>)
        requires
            synack.raw_spec().len() >= HEADER_LEN,
        ensures
            synack.flags_of() != flag::ACK | flag::SYN ==> r == Err::<(), TcpError>(TcpError::NoSynAck) && *final(self) == *old(self),
            synack.flags_of() == flag::ACK | flag::SYN ==> r is Ok
                && final(self).state_spec() == TcpState::ESTABLISHED
                && final(self).seq_num_spec() == old(self).seq_num_spec()
                && final(self).ack_num_spec() == old(self).ack_num_spec()
                && final(self).same_end_points(*old(self)),
    {
        if synack.flags() != flag::ACK | flag::SYN {
            return Err(TcpError::NoSynAck);
        }
        self.state = TcpState::ESTABLISHED;
        Ok(())
    }

    /// The first step of closing: the connection waits for the ACK of its FIN.
    pub fn begin_close(&mut self)
        ensures
            final(self).state_spec() == TcpState::FINWAIT1,
            final(self).seq_num_spec() == old(self).seq_num_spec(),
            final(self).ack_num_spec() == old(self).ack_num_spec(),
            final(self).same_end_points(*old(self)),
    {
        self.state = TcpState::FINWAIT1;
    }

    /// The second step of closing: the answer to FIN/ACK must be exactly
    /// ACK; then the connection waits for the peer's FIN.
    pub fn on_fin_acked(&mut self, ack: &TcpPacket) -> (r: Result<(), TcpError>)
        requires
            ack.raw_spec().len() >= HEADER_LEN,
        ensures
            ack.flags_of() != flag::ACK ==> r == Err::<(), TcpError>(TcpError::NoAckForFin) && *final(self) == *old(self),
            ack.flags_of() == flag::ACK ==> r is Ok
                && final(self).state_spec() == TcpState::FINWAIT2
                && final(self).seq_num_spec() == old(self).seq_num_spec()
                && final(self).ack_num_spec() == old(self).ack_num_spec()
                && final(self).same_end_points(*old(self)),
    {
        if ack.flags() != flag::ACK {
            return Err(TcpError::NoAckForFin);
        }
        self.state = TcpState::FINWAIT2;
        Ok(())
    }

    /// The third step of closing: the peer's segment must be exactly
    /// FIN/ACK; then the own FIN counts one sequence number and the
    /// connection waits out TIMEWAIT.
    pub fn on_peer_fin(&mut self, finack: &TcpPacket) -> (r: Result<(), TcpError>)
        requires
            finack.raw_spec().len() >= HEADER_LEN,
            old(self).seq_num_spec() < u32::MAX,
        ensures
            finack.flags_of() != flag::ACK | flag::FIN ==> r == Err::<(), TcpError>(TcpError::NoFinAckForFin) && *final(self) == *old(self),
            finack.flags_of() == flag::ACK | flag::FIN ==> r is Ok
                && final(self).state_spec() == TcpState::TIMEWAIT
                && final(self).seq_num_spec() == old(self).seq_num_spec() + 1
                && final(self).ack_num_spec() == old(self).ack_num_spec()
                && final(self).same_end_points(*old(self)),
    {
        if finack.flags() != flag::ACK | flag::FIN {
            return Err(TcpError::NoFinAckForFin);
        }
        self.seq_num = self.seq_num + 1;
        self.state = TcpState::TIMEWAIT;
        Ok(())
    }

    /// The last step of closing: the connection is closed.
    pub fn finish_close(&mut self)
        ensures
            final(self).state_spec() == TcpState::CLOSED,
            final(self).seq_num_spec() == old(self).seq_num_spec(),
            final(self).ack_num_spec() == old(self).ack_num_spec(),
            final(self).same_end_points(*old(self)),
    {
        self.state = TcpState::CLOSED;
    }
}

/// A TCP segment (header and data) between two IPv4 addresses.
pub struct TcpPacket {
    src: Ipv4Addr,
    dst: Ipv4Addr,
    buf: Vec<u8>,
}

impl TcpPacket {
    /// The bytes of the segment.
    pub closed spec fn raw_spec(&self) -> Seq<u8> {
        self.buf@
    }

    /// The sending address the checksum covers.
    pub closed spec fn src_spec(&self) -> Ipv4Addr {
        self.src
    }

    /// The receiving address the checksum covers.
    pub closed spec fn dst_spec(&self) -> Ipv4Addr {
        self.dst
    }

    /// The flags byte.
    pub open spec fn flags_of(&self) -> u8 {
        self.raw_spec()[13]
    }

    /// The sequence number field.
    pub open spec fn seq_num_of(&self) -> int {
        let r = self.raw_spec();
        r[4] as int * 0x100_0000 + r[5] as int * 0x1_0000 + r[6] as int * 256 + r[7] as int
    }

    /// Where the data starts: the data offset field times four.
    pub open spec fn data_start(&self) -> int {
        (self.raw_spec()[12] / 16) as int * 4
    }

    /// The sequence numbers the segment occupies: its data, and one more
    /// for SYN or FIN.
    pub open spec fn seq_advance_of(&self) -> int {
        (self.raw_spec().len() - self.data_start())
            + (if self.flags_of() & (flag::SYN | flag::FIN) != 0 { 1int } else { 0int })
    }

    /// The checksum a receiver computes over this segment.
    pub open spec fn recv_checksum_spec(&self) -> int {
        recv_checksum_of(self.raw_spec(), self.src_spec(), self.dst_spec(), TCP_PROTOCOL)
    }

    /// The segment `conn` sends with the flags `flags` and the data `data`:
    /// a header without options whose checksum makes the segment intact.
    pub fn new(conn: &TcpConnection, flags: u8, data: &[u8]) -> (r: Self)
        requires
            send_sum_of(
                tcp_header(conn.src_port_spec(), conn.dst_port_spec(), conn.seq_num_spec(), conn.ack_num_spec(), flags, 0) + data@,
                CHECKSUM_OFFSET as int, conn.src_ip_spec(), conn.dst_ip_spec(), TCP_PROTOCOL) <= u32::MAX,
        ensures
            r.src_spec() == conn.src_ip_spec(),
            r.dst_spec() == conn.dst_ip_spec(),
            r.raw_spec() == tcp_header(conn.src_port_spec(), conn.dst_port_spec(), conn.seq_num_spec(), conn.ack_num_spec(), flags,
                send_checksum_of(
                    tcp_header(conn.src_port_spec(), conn.dst_port_spec(), conn.seq_num_spec(), conn.ack_num_spec(), flags, 0) + data@,
                    CHECKSUM_OFFSET as int, conn.src_ip_spec(), conn.dst_ip_spec(), TCP_PROTOCOL)) + data@,
            r.recv_checksum_spec() == 0xFFFF,
    {
        let mut buf: Vec<u8> = Vec::new();
        push_be16(&mut buf, conn.src_port);
        push_be16(&mut buf, conn.dst_port);
        push_be32(&mut buf, conn.seq_num);
        push_be32(&mut buf, conn.ack_num);
        buf.push(0x50u8);
        buf.push(flags);
        push_be16(&mut buf, WINDOW_SIZE);
        push_be16(&mut buf, 0);
        buf.push(0u8);
        buf.push(0u8);
        let ghost header0 = tcp_header(conn.src_port, conn.dst_port, conn.seq_num, conn.ack_num, flags, 0);
        proof {
            assert(buf@ =~= header0);
        }
        let mut i: usize = 0;
        while i < data.len()
            invariant
                i <= data@.len(),
                buf@ == header0 + data@.subrange(0, i as int),
            decreases data@.len() - i,
        {
            buf.push(data[i]);
            i = i + 1;
            proof {
                assert(buf@ =~= header0 + data@.subrange(0, i as int));
            }
        }
        proof {
            assert(data@.subrange(0, data@.len() as int) =~= data@);
        }
        let ghost raw0 = buf@;
        let mut packet = TcpPacket { src: conn.src_ip, dst: conn.dst_ip, buf };
        let checksum = packet.calculate_send_checksum();
        packet.buf[16] = (checksum >> 8) as u8;
        packet.buf[17] = (checksum & 0xFF) as u8;
        proof {
            let c = send_checksum_of(raw0, 16, conn.src_ip, conn.dst_ip, TCP_PROTOCOL);
            crate::util::bits::lemma_u16_bytes(checksum);
            let header = tcp_header(conn.src_port, conn.dst_port, conn.seq_num, conn.ack_num, flags, c);
            assert(packet.buf@ =~= header + data@);
            let raw = packet.buf@;
            assert(raw.subrange(0, 16) =~= raw0.subrange(0, 16));
            assert(raw.subrange(18, raw.len() as int) =~= raw0.subrange(18, raw0.len() as int));
            assert(raw.subrange(16, 18) =~= be16(c));
            lemma_checksum_round_trip(raw, 16, conn.src_ip, conn.dst_ip, TCP_PROTOCOL);
        }
        packet
    }

    /// The bytes of the segment.
    pub fn raw(&self) -> (r: &[u8])
        ensures
            r@ == self.raw_spec(),
    {
        self.buf.as_slice()
    }

    /// The data offset field: the header length in 32-bit words.
    pub fn data_offset(&self) -> (r: u8)
        requires
            self.raw_spec().len() >= HEADER_LEN,
        ensures
            r == self.raw_spec()[12] / 16,
    {
        proof {
            let b = self.buf@[12];
            assert(b >> 4u8 == b / 16) by (bit_vector);
        }
        self.buf[12] >> 4
    }

    /// The data after the header and its options.
    pub fn data(&self) -> (r: &[u8])
        requires
            self.raw_spec().len() >= HEADER_LEN,
            self.data_start() <= self.raw_spec().len(),
        ensures
            r@ == self.raw_spec().subrange(self.data_start(), self.raw_spec().len() as int),
    {
        let data_start = (self.data_offset() as usize) * 4;
        let raw = self.buf.as_slice();
        &raw[data_start..raw.len()]
    }

    /// The options between the fixed header and the data.
    pub fn options(&self) -> (r: &[u8])
        requires
            self.raw_spec().len() >= HEADER_LEN,
            HEADER_LEN <= self.data_start() <= self.raw_spec().len(),
        ensures
            r@ == self.raw_spec().subrange(HEADER_LEN as int, self.data_start()),
    {
        let data_start = (self.data_offset() as usize) * 4;
        let raw = self.buf.as_slice();
        &raw[HEADER_LEN..data_start]
    }

    /// The fixed 20-byte header.
    pub fn header(&self) -> (r: &[u8])
        requires
            self.raw_spec().len() >= HEADER_LEN,
        ensures
            r@ == self.raw_spec().subrange(0, HEADER_LEN as int),
    {
        let raw = self.buf.as_slice();
        &raw[0..HEADER_LEN]
    }

    /// The acknowledgement number field.
    pub fn ack_num(&self) -> (r: u32)
        requires
            self.raw_spec().len() >= HEADER_LEN,
        ensures
            r == self.raw_spec()[8] as int * 0x100_0000 + self.raw_spec()[9] as int * 0x1_0000
                + self.raw_spec()[10] as int * 256 + self.raw_spec()[11] as int,
    {
        be_u32(self.buf[8], self.buf[9], self.buf[10], self.buf[11])
    }

    /// The sequence number field.
    pub fn seq_num(&self) -> (r: u32)
        requires
            self.raw_spec().len() >= HEADER_LEN,
        ensures
            r == self.seq_num_of(),
    {
        be_u32(self.buf[4], self.buf[5], self.buf[6], self.buf[7])
    }

    /// The flags byte.
    pub fn flags(&self) -> (r: u8)
        requires
            self.raw_spec().len() >= HEADER_LEN,
        ensures
            r == self.flags_of(),
    {
        self.buf[13]
    }

    /// The source port field.
    pub fn src_port(&self) -> (r: u16)
        requires
            self.raw_spec().len() >= HEADER_LEN,
        ensures
            r == self.raw_spec()[0] as int * 256 + self.raw_spec()[1] as int,
    {
        be_u16(self.buf[0], self.buf[1])
    }

    /// The destination port field.
    pub fn dst_port(&self) -> (r: u16)
        requires
            self.raw_spec().len() >= HEADER_LEN,
        ensures
            r == self.raw_spec()[2] as int * 256 + self.raw_spec()[3] as int,
    {
        be_u16(self.buf[2], self.buf[3])
    }

    /// The window field.
    pub fn window(&self) -> (r: u16)
        requires
            self.raw_spec().len() >= HEADER_LEN,
        ensures
            r == self.raw_spec()[14] as int * 256 + self.raw_spec()[15] as int,
    {
        be_u16(self.buf[14], self.buf[15])
    }

    /// The checksum field.
    pub fn checksum(&self) -> (r: u16)
        requires
            self.raw_spec().len() >= HEADER_LEN,
        ensures
            r == self.raw_spec()[16] as int * 256 + self.raw_spec()[17] as int,
    {
        be_u16(self.buf[16], self.buf[17])
    }

    /// The urgent pointer field.
    pub fn urg(&self) -> (r: u16)
        requires
            self.raw_spec().len() >= HEADER_LEN,
        ensures
            r == self.raw_spec()[18] as int * 256 + self.raw_spec()[19] as int,
    {
        be_u16(self.buf[18], self.buf[19])
    }

    /// The segment `data` that `conn` received: it was sent from the peer's
    /// address to the own one.
    pub fn parse(conn: &TcpConnection, data: Vec<u8>) -> (r: Self)
        ensures
            r.src_spec() == conn.dst_ip_spec(),
            r.dst_spec() == conn.src_ip_spec(),
            r.raw_spec() == data@,
    {
        TcpPacket { src: conn.dst_ip, dst: conn.src_ip, buf: data }
    }

    /// The segment `data` that `conn` received, if `validate` accepts it.
    pub fn validated(conn: &TcpConnection, data: Vec<u8>) -> (r: Result<Self, TcpError>)
        requires
            data@.len() >= HEADER_LEN,
            conn.seq_num_spec() < u32::MAX,
            word_sum(data@) + pseudo_header_sum_of(conn.dst_ip_spec(), conn.src_ip_spec(), TCP_PROTOCOL, data@.len() as int) <= u32::MAX,
        ensures
            ({
                let p = Self::received(*conn, data);
                match r {
                    Ok(q) => q.raw_spec() == data@ && q.src_spec() == conn.dst_ip_spec() && q.dst_spec() == conn.src_ip_spec()
                        && p.accepted_by(conn),
                    Err(e) => Err::<(), TcpError>(e) == p.validation_result(conn),
                }
            }),
    {
        let packet = TcpPacket::parse(conn, data);
        packet.validate(conn)?;
        Ok(packet)
    }

    /// The segment `data` as `conn` receives it.
    pub closed spec fn received(conn: TcpConnection, data: Vec<u8>) -> TcpPacket {
        TcpPacket { src: conn.dst_ip, dst: conn.src_ip, buf: data }
    }

    /// What `validate` answers for `conn`: a checksum other than 0xFFFF, an
    /// acknowledgement of anything but the own sequence number plus one, and
    /// the reset flag are refused, in that order.
    pub open spec fn validation_result(&self, conn: &TcpConnection) -> Result<(), TcpError> {
        let r = self.raw_spec();
        let ack = r[8] as int * 0x100_0000 + r[9] as int * 0x1_0000 + r[10] as int * 256 + r[11] as int;
        if self.recv_checksum_spec() != 0xFFFF {
            Err(TcpError::ChecksumMismatch(self.recv_checksum_spec() as u16))
        } else if ack != conn.seq_num_spec() + 1 {
            Err(TcpError::AckMismatch { received: ack as u32, expected: (conn.seq_num_spec() + 1) as u32 })
        } else if self.flags_of() & flag::RST > 0 {
            Err(TcpError::ConnectionReset)
        } else {
            Ok(())
        }
    }

    /// `validate` accepts the segment for `conn`.
    pub open spec fn accepted_by(&self, conn: &TcpConnection) -> bool {
        self.validation_result(conn) is Ok
    }

    /// The sequence numbers the segment occupies: its data, and one more
    /// for SYN or FIN.
    pub fn calc_seq_advance(&self) -> (r: u32)
        requires
            self.raw_spec().len() >= HEADER_LEN,
            self.data_start() <= self.raw_spec().len(),
            self.seq_advance_of() <= u32::MAX,
        ensures
            r == self.seq_advance_of(),
    {
        let mut n = self.data().len() as u32;
        if self.flags() & (flag::SYN | flag::FIN) != 0 {
            n = n + 1;
        }
        n
    }

    /// Checks a received segment against `conn`, as `validation_result`
    /// describes.
    pub fn validate(&self, conn: &TcpConnection) -> (r: Result<(), TcpError>)
        requires
            self.raw_spec().len() >= HEADER_LEN,
            conn.seq_num_spec() < u32::MAX,
            word_sum(self.raw_spec()) + pseudo_header_sum_of(self.src_spec(), self.dst_spec(), TCP_PROTOCOL, self.raw_spec().len() as int) <= u32::MAX,
        ensures
            r == self.validation_result(conn),
    {
        let checksum = self.calculate_recv_checksum();
        if checksum != 0xFFFF {
            return Err(TcpError::ChecksumMismatch(checksum));
        }
        let ack_num = self.ack_num();
        if ack_num != conn.seq_num + 1 {
            return Err(TcpError::AckMismatch { received: ack_num, expected: conn.seq_num + 1 });
        }
        if self.flags() & flag::RST > 0 {
            return Err(TcpError::ConnectionReset);
        }
        Ok(())
    }

    /// The sum of the IPv4 pseudo header of this segment.
    pub fn pseudo_header_sum(&self) -> (r: u32)
        requires
            pseudo_header_sum_of(self.src_spec(), self.dst_spec(), TCP_PROTOCOL, self.raw_spec().len() as int) <= u32::MAX,
        ensures
            r == pseudo_header_sum_of(self.src_spec(), self.dst_spec(), TCP_PROTOCOL, self.raw_spec().len() as int),
    {
        pseudo_header_sum(&self.src, &self.dst, IPProtocol::TCP.number(), self.buf.len())
    }

    /// The receiver's checksum: the folded sum of the segment and the pseudo
    /// header, 0xFFFF for an intact segment.
    pub fn calculate_recv_checksum(&self) -> (r: u16)
        requires
            word_sum(self.raw_spec()) + pseudo_header_sum_of(self.src_spec(), self.dst_spec(), TCP_PROTOCOL, self.raw_spec().len() as int) <= u32::MAX,
        ensures
            r == self.recv_checksum_spec(),
    {
        proof {
            lemma_word_sum_nonneg(self.buf@);
        }
        let raw = self.buf.as_slice();
        fold_sum(sum_byte_arr(raw) + self.pseudo_header_sum())
    }

    /// The sender's checksum: the complement of the folded sum of every word
    /// but the checksum field, and the pseudo header.
    pub fn calculate_send_checksum(&self) -> (r: u16)
        requires
            self.raw_spec().len() >= 18,
            send_sum_of(self.raw_spec(), CHECKSUM_OFFSET as int, self.src_spec(), self.dst_spec(), TCP_PROTOCOL) <= u32::MAX,
        ensures
            r == send_checksum_of(self.raw_spec(), CHECKSUM_OFFSET as int, self.src_spec(), self.dst_spec(), TCP_PROTOCOL),
    {
        let raw = self.buf.as_slice();
        let len = raw.len();
        let head = &raw[0..16];
        let tail = &raw[18..len];
        proof {
            lemma_word_sum_nonneg(head@);
            lemma_word_sum_nonneg(tail@);
        }
        let sum = fold_sum(sum_byte_arr(head) + sum_byte_arr(tail) + self.pseudo_header_sum());
        proof {
            crate::util::bits::lemma_u16_not(sum);
        }
        !sum
    }
}

} // verus!
