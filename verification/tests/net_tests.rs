use kernel::io::net::protocols::arp::{Arp, ArpCache, ArpPacket, Operation};
use kernel::io::net::protocols::tcp::{flag, TcpConnection, TcpError, TcpPacket, TcpState};
use kernel::io::net::protocols::udp::{UdpConnection, UdpPacket};
use kernel::io::net::{IPProtocol, Ipv4Addr, MacAddr};

fn ip(a: u8, b: u8, c: u8, d: u8) -> Ipv4Addr {
    Ipv4Addr::new(a, b, c, d)
}

#[test]
fn ipv4_octets() {
    let a = ip(10, 0, 0, 1);
    assert_eq!(a.0, 0x0A00_0001);
    assert_eq!(a.octets(), [10, 0, 0, 1]);
    assert_eq!(IPProtocol::UDP.number(), 17);
    assert_eq!(IPProtocol::TCP.number(), 6);
}

#[test]
fn mac_addresses() {
    assert_eq!(MacAddr::broadcast().octets(), [0xFF; 6]);
    assert_eq!(MacAddr::zero().octets(), [0; 6]);
    assert_eq!(MacAddr::from_bytes(&[1, 2, 3, 4, 5, 6, 7]).octets(), [1, 2, 3, 4, 5, 6]);
}

#[test]
fn arp_request_bytes() {
    let mac = MacAddr::from_bytes(&[0x52, 0x54, 0, 0x12, 0x34, 0x56]);
    let mut buf = [0xEEu8; 30];
    ArpPacket::write(mac, ip(10, 0, 2, 15), ip(10, 0, 2, 2), &mut buf);
    assert_eq!(
        buf,
        [
            0, 1, 8, 0, 6, 4, 0, 1, 0x52, 0x54, 0, 0x12, 0x34, 0x56, 10, 0, 2, 15, 0, 0, 0, 0, 0, 0,
            10, 0, 2, 2, 0xEE, 0xEE
        ]
    );
    let p = ArpPacket(&buf);
    assert_eq!(p.operation(), Ok(Operation::ArpRequest));
    assert_eq!(p.src_hw().octets(), [0x52, 0x54, 0, 0x12, 0x34, 0x56]);
    assert_eq!(p.src_ip().0, 0x0A00_020F);
    assert_eq!(p.dst_hw().octets(), [0; 6]);
    assert_eq!(p.dst_ip().0, 0x0A00_0202);
    assert_eq!(ArpPacket::len(), 28);
}

#[test]
fn arp_operations() {
    assert_eq!(Operation::try_from_primitive(2), Ok(Operation::ArpResponse));
    assert_eq!(Operation::try_from_primitive(9), Err(9));
    assert_eq!(Operation::RarpResponse.to_bytes(), [0, 4]);
}

#[test]
fn arp_lookup_after_handling_reply() {
    let mut cache = ArpCache::new();
    Arp::init(&mut cache);
    assert_eq!(Arp::lookup_cached(&cache, &ip(255, 255, 255, 255)).map(|m| m.octets()), Some([0xFF; 6]));
    assert!(Arp::lookup_cached(&cache, &ip(10, 0, 2, 2)).is_none());
    let reply = [
        0, 1, 8, 0, 6, 4, 0, 2, 0x52, 0x55, 10, 0, 2, 2, 10, 0, 2, 2, 0x52, 0x54, 0, 0x12, 0x34, 0x56,
        10, 0, 2, 15,
    ];
    let learnt = Arp::handle_packet(&mut cache, &ArpPacket(&reply)).expect("a sender");
    assert_eq!(learnt.0, 0x0A00_0202);
    assert_eq!(
        Arp::lookup_cached(&cache, &ip(10, 0, 2, 2)).map(|m| m.octets()),
        Some([0x52, 0x55, 10, 0, 2, 2])
    );
}

#[test]
fn udp_datagram_checksum() {
    let conn = UdpConnection::new(ip(10, 0, 0, 1), ip(10, 0, 0, 2), 1234, 80);
    let p = UdpPacket::new(&conn, b"hi");
    assert_eq!(p.raw(), &[0x04, 0xD2, 0x00, 0x50, 0x00, 0x0A, 0x7E, 0x4C, b'h', b'i']);
    assert_eq!(p.checksum(), 0x7E4C);
    assert_eq!(p.src_port(), 1234);
    assert_eq!(p.dst_port(), 80);
    assert_eq!(p.len(), 10);
    assert_eq!(p.data(), b"hi");
    assert_eq!(UdpPacket::header_len(), 8);
    assert_eq!(p.calculate_recv_checksum(), 0xFFFF);
}

#[test]
fn udp_received_datagram() {
    let conn = UdpConnection::new(ip(10, 0, 0, 2), ip(10, 0, 0, 1), 80, 1234);
    let p = UdpPacket::from(&conn, vec![0x04, 0xD2, 0x00, 0x50, 0x00, 0x0A, 0x7E, 0x4C, b'h', b'i']);
    assert_eq!(p.calculate_recv_checksum(), 0xFFFF);
    let bad = UdpPacket::from(&conn, vec![0x04, 0xD2, 0x00, 0x50, 0x00, 0x0A, 0x7E, 0x4D, b'h', b'i']);
    assert_ne!(bad.calculate_recv_checksum(), 0xFFFF);
}

fn open_conn() -> TcpConnection {
    let mut c = TcpConnection::from_parts(ip(10, 0, 0, 1), ip(10, 0, 0, 2), 1234, 80);
    assert_eq!(c.state(), TcpState::CLOSED);
    assert_eq!(c.begin_open(), Ok(()));
    c
}

#[test]
fn tcp_syn_segment() {
    let c = open_conn();
    assert_eq!(c.state(), TcpState::SYNSENT);
    assert_eq!(c.seq_num(), 0xdeadbeef);
    let syn = TcpPacket::new(&c, flag::SYN, &[]);
    assert_eq!(
        syn.raw(),
        &[
            0x04, 0xd2, 0x00, 0x50, 0xde, 0xad, 0xbe, 0xef, 0, 0, 0, 0, 0x50, 0x02, 0x0f, 0xff, 0xe9,
            0x21, 0, 0
        ]
    );
    assert_eq!(syn.checksum(), 0xe921);
    assert_eq!(syn.calculate_recv_checksum(), 0xFFFF);
    assert_eq!(syn.data_offset(), 5);
    assert_eq!(syn.calc_seq_advance(), 1);
    assert_eq!(syn.flags(), flag::SYN);
    assert_eq!(syn.window(), 0x0FFF);
}

#[test]
fn tcp_reopen_refused() {
    let mut c = open_conn();
    assert_eq!(c.begin_open(), Err(TcpError::NotClosed));
}

const SYNACK: [u8; 23] = [
    0x00, 0x50, 0x04, 0xd2, 0x00, 0x00, 0x03, 0xe8, 0xde, 0xad, 0xbe, 0xf0, 0x50, 0x12, 0x0f, 0xff,
    0x20, 0xc3, 0x00, 0x00, 0x61, 0x62, 0x63,
];

#[test]
fn tcp_handshake_completes() {
    let mut c = open_conn();
    let synack = match TcpPacket::validated(&c, SYNACK.to_vec()) {
        Ok(p) => p,
        Err(e) => panic!("refused: {:?}", e),
    };
    assert_eq!(synack.data(), b"abc");
    assert_eq!(synack.seq_num(), 1000);
    assert_eq!(synack.ack_num(), 0xdeadbef0);
    assert_eq!(c.finish_open(&synack), Ok(()));
    assert_eq!(c.state(), TcpState::ESTABLISHED);
    c.record_received(&synack);
    // Three bytes of data and the SYN.
    assert_eq!(c.ack_num(), 1004);
    c.record_acknowledged(&synack, 1);
    assert_eq!(c.seq_num(), 0xdeadbef0);
}

#[test]
fn tcp_checksum_mismatch() {
    let c = open_conn();
    let mut bytes = SYNACK.to_vec();
    bytes.truncate(20);
    bytes[16] = 0xe5;
    bytes[17] = 0x28;
    bytes[14] = 0x0e;
    assert!(matches!(TcpPacket::validated(&c, bytes), Err(TcpError::ChecksumMismatch(0xfeff))));
}

#[test]
fn tcp_ack_mismatch() {
    let c = open_conn();
    let bytes = vec![
        0x00, 0x50, 0x04, 0xd2, 0x00, 0x00, 0x03, 0xe8, 0xde, 0xad, 0xbe, 0xef, 0x50, 0x12, 0x0f, 0xff,
        0xe5, 0x29, 0x00, 0x00,
    ];
    assert!(matches!(
        TcpPacket::validated(&c, bytes),
        Err(TcpError::AckMismatch { received: 0xdeadbeef, expected: 0xdeadbef0 })
    ));
}

#[test]
fn tcp_reset() {
    let c = open_conn();
    let bytes = vec![
        0x00, 0x50, 0x04, 0xd2, 0x00, 0x00, 0x03, 0xe8, 0xde, 0xad, 0xbe, 0xf0, 0x50, 0x14, 0x0f, 0xff,
        0xe5, 0x26, 0x00, 0x00,
    ];
    assert!(matches!(TcpPacket::validated(&c, bytes), Err(TcpError::ConnectionReset)));
}

#[test]
fn tcp_close_sequence() {
    let mut c = open_conn();
    let peer = TcpConnection::from_parts(ip(10, 0, 0, 2), ip(10, 0, 0, 1), 80, 1234);
    c.begin_close();
    assert_eq!(c.state(), TcpState::FINWAIT1);
    let synack = TcpPacket::new(&peer, flag::SYN | flag::ACK, &[]);
    assert_eq!(c.on_fin_acked(&synack), Err(TcpError::NoAckForFin));
    let ack = TcpPacket::new(&peer, flag::ACK, &[]);
    assert_eq!(c.on_fin_acked(&ack), Ok(()));
    assert_eq!(c.state(), TcpState::FINWAIT2);
    assert_eq!(c.on_peer_fin(&ack), Err(TcpError::NoFinAckForFin));
    let finack = TcpPacket::new(&peer, flag::FIN | flag::ACK, &[]);
    assert_eq!(c.on_peer_fin(&finack), Ok(()));
    assert_eq!(c.state(), TcpState::TIMEWAIT);
    assert_eq!(c.seq_num(), 0xdeadbef0);
    c.finish_close();
    assert_eq!(c.state(), TcpState::CLOSED);
    assert_eq!(c.finish_open(&ack), Err(TcpError::NoSynAck));
}
