//! Datagrams relayed through a SOCKS5 association.

use tun_engine::helpers::socks5_udp::{decode_socks5_udp, encode_socks5_udp};
use tun_engine::ip::{IpAddr, Ipv4Addr, Ipv6Addr};

#[test]
fn encode_decode_roundtrip_ipv4() {
    let dst_ip = IpAddr::V4(Ipv4Addr::new(93, 184, 216, 34));
    let dst_port = 443;
    let payload = b"hello world";

    let encoded = encode_socks5_udp(dst_ip, dst_port, None, payload);
    let (ip, port, header_len) = decode_socks5_udp(&encoded).expect("decode should succeed");

    assert_eq!(ip, dst_ip);
    assert_eq!(port, dst_port);
    assert_eq!(&encoded[header_len..], payload);
}

#[test]
fn encode_decode_roundtrip_ipv6() {
    let dst_ip = IpAddr::V6(Ipv6Addr::new(0x2001, 0xdb8, 0, 0, 0, 0, 0, 1));
    let dst_port = 8080;
    let payload = b"ipv6 test";

    let encoded = encode_socks5_udp(dst_ip, dst_port, None, payload);
    let (ip, port, header_len) = decode_socks5_udp(&encoded).expect("decode should succeed");

    assert_eq!(ip, dst_ip);
    assert_eq!(port, dst_port);
    assert_eq!(&encoded[header_len..], payload);
}

#[test]
fn encode_domain_decodes_as_unspecified_ip() {
    let dst_ip = IpAddr::V4(Ipv4Addr::new(1, 2, 3, 4));
    let dst_port = 53;
    let payload = b"dns query";
    let domain = "example.com";

    let encoded = encode_socks5_udp(dst_ip, dst_port, Some(domain), payload);

    assert_eq!(encoded[3], 0x03);

    let (ip, port, header_len) = decode_socks5_udp(&encoded).expect("decode should succeed");
    assert_eq!(ip, IpAddr::V4(Ipv4Addr::new(0, 0, 0, 0)));
    assert_eq!(port, dst_port);
    assert_eq!(&encoded[header_len..], payload);
}

#[test]
fn frag_nonzero_returns_none() {
    let mut encoded = encode_socks5_udp(IpAddr::V4(Ipv4Addr::new(127, 0, 0, 1)), 80, None, b"data");
    encoded[2] = 0x01;
    assert!(decode_socks5_udp(&encoded).is_none());
}

#[test]
fn truncated_packet_returns_none() {
    assert!(decode_socks5_udp(&[0x00, 0x00, 0x00, 0x01, 0x01]).is_none());
}

#[test]
fn unknown_atyp_returns_none() {
    let mut encoded = encode_socks5_udp(IpAddr::V4(Ipv4Addr::new(127, 0, 0, 1)), 80, None, b"data");
    encoded[3] = 0x05;
    assert!(decode_socks5_udp(&encoded).is_none());
}

#[test]
fn an_ipv4_datagram_is_laid_out_byte_by_byte() {
    let encoded = encode_socks5_udp(IpAddr::V4(Ipv4Addr::new(192, 0, 2, 9)), 0x1234, None, &[0xaa, 0xbb]);
    assert_eq!(encoded, vec![0, 0, 0, 1, 192, 0, 2, 9, 0x12, 0x34, 0xaa, 0xbb]);
}

#[test]
fn a_domain_is_written_with_its_length() {
    let encoded = encode_socks5_udp(IpAddr::V4(Ipv4Addr::new(1, 2, 3, 4)), 53, Some("a.b"), &[]);
    assert_eq!(encoded, vec![0, 0, 0, 3, 3, b'a', b'.', b'b', 0, 53]);
    assert_eq!(
        decode_socks5_udp(&encoded),
        Some((IpAddr::V4(Ipv4Addr::new(0, 0, 0, 0)), 53, 10))
    );
    assert_eq!(decode_socks5_udp(&encoded[..9]), None);
}

#[test]
fn a_header_without_payload_is_complete_and_one_byte_less_is_not() {
    let v6 = encode_socks5_udp(IpAddr::V6(Ipv6Addr::new(1, 2, 3, 4, 5, 6, 7, 8)), 9, None, &[]);
    assert_eq!(v6.len(), 22);
    assert_eq!(
        decode_socks5_udp(&v6),
        Some((IpAddr::V6(Ipv6Addr::new(1, 2, 3, 4, 5, 6, 7, 8)), 9, 22))
    );
    assert_eq!(decode_socks5_udp(&v6[..21]), None);
    assert_eq!(decode_socks5_udp(&[]), None);
}
