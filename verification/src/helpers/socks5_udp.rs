//! The header of SOCKS5 UDP datagrams, as RFC 1928 has it.

use vstd::prelude::*;
use vstd::string::*;
use crate::ip::{IpAddr, Ipv4Addr, Ipv6Addr};

verus! {

/// The address part of a header: its type, and the address.
pub open spec fn address_bytes(ip: IpAddr, domain: Option<&str>) -> Seq<u8> {
    match (domain, ip) {
        (Some(name), _) => seq![3u8, name.spec_bytes().len() as u8] + name.spec_bytes(),
        (None, IpAddr::V4(v4)) => seq![1u8] + v4.octets@,
        (None, IpAddr::V6(v6)) => seq![4u8] + Seq::new(
            16,
            |i: int|
                if i % 2 == 0 {
                    (v6.segments@[i / 2] / 256) as u8
                } else {
                    (v6.segments@[i / 2] % 256) as u8
                },
        ),
    }
}

/// The header: reserved bytes and fragment number, all zero, then the address and
/// the port, most significant byte first.
pub open spec fn header(ip: IpAddr, port: u16, domain: Option<&str>) -> Seq<u8> {
    seq![0u8, 0u8, 0u8] + address_bytes(ip, domain) + seq![(port / 256) as u8, (port % 256) as u8]
}

/// A datagram starts with a header for this destination: two reserved bytes and the
/// fragment number, all zero, the address type, the address with its most significant
/// octet first, and the port likewise.
pub open spec fn starts_as_datagram(p: Seq<u8>, ip: IpAddr, port: u16, domain: Option<&str>) -> bool {
    &&& p.len() >= 4 && p[0] == 0 && p[1] == 0 && p[2] == 0
    &&& match (domain, ip) {
        (Some(name), _) => {
            let n = name.spec_bytes().len() as int;
            &&& p[3] == 3 && p.len() >= 7 + n && p[4] == n
            &&& forall|i: int| 0 <= i < n ==> p[5 + i] == #[trigger] name.spec_bytes()[i]
            &&& 256 * p[5 + n] + p[6 + n] == port
        },
        (None, IpAddr::V4(v4)) => {
            &&& p[3] == 1 && p.len() >= 10
            &&& p[4] == v4.octets@[0] && p[5] == v4.octets@[1] && p[6] == v4.octets@[2] && p[7] == v4.octets@[3]
            &&& 256 * p[8] + p[9] == port
        },
        (None, IpAddr::V6(v6)) => {
            &&& p[3] == 4 && p.len() >= 22
            &&& forall|i: int| 0 <= i < 8 ==> 256 * p[4 + 2 * i] + p[5 + 2 * i] == #[trigger] v6.segments@[i]
            &&& 256 * p[20] + p[21] == port
        },
    }
}

/// A header is laid out as RFC 1928 has it, and nothing is in it but that.
pub proof fn a_header_is_laid_out(ip: IpAddr, port: u16, domain: Option<&str>)
    requires
        domain matches Some(name) ==> name.spec_bytes().len() <= 255,
    ensures
        starts_as_datagram(header(ip, port, domain), ip, port, domain),
        header(ip, port, domain).len() == match (domain, ip) {
            (Some(name), _) => 7 + name.spec_bytes().len(),
            (None, IpAddr::V4(_)) => 10,
            (None, IpAddr::V6(_)) => 22,
        },
{
    let h = header(ip, port, domain);
    let a = address_bytes(ip, domain);
    assert(forall|i: int| 0 <= i < a.len() ==> h[3 + i] == a[i]);
    assert(256 * (port / 256) + port % 256 == port);
    match (domain, ip) {
        (Some(name), _) => {
            assert forall|i: int| 0 <= i < name.spec_bytes().len() implies h[5 + i] == #[trigger] name.spec_bytes()[i] by {
                assert(a[2 + i] == name.spec_bytes()[i]);
            }
        }
        (None, IpAddr::V4(_)) => {}
        (None, IpAddr::V6(v6)) => {
            assert forall|i: int| 0 <= i < 8 implies 256 * h[4 + 2 * i] + h[5 + 2 * i] == #[trigger] v6.segments@[i] by {
                assert(h[4 + 2 * i] == a[1 + 2 * i]);
                assert(h[5 + 2 * i] == a[2 + 2 * i]);
                assert(2 * i / 2 == i && (2 * i + 1) / 2 == i);
            }
        }
    }
}

proof fn lemma_layout_goes_on(h: Seq<u8>, payload: Seq<u8>, ip: IpAddr, port: u16, domain: Option<&str>)
    requires
        starts_as_datagram(h, ip, port, domain),
    ensures
        starts_as_datagram(h + payload, ip, port, domain),
{
    let p = h + payload;
    assert(forall|i: int| 0 <= i < h.len() ==> p[i] == h[i]);
}

/// There is a whole header of no fragment, with an address of a known type.
pub open spec fn has_header(p: Seq<u8>) -> bool {
    &&& p.len() >= 4 && p[2] == 0
    &&& {
        ||| p[3] == 1 && p.len() >= 10
        ||| p[3] == 4 && p.len() >= 22
        ||| p[3] == 3 && p.len() >= 7 && p.len() >= 7 + p[4]
    }
}

/// The address, the port and the payload's place are what the bytes of the header
/// say, most significant octet first. A domain is passed over.
pub open spec fn is_read(p: Seq<u8>, ip: IpAddr, port: u16, n: int) -> bool {
    match ip {
        IpAddr::V4(v4) => if p[3] == 1 {
            &&& v4.octets@[0] == p[4] && v4.octets@[1] == p[5] && v4.octets@[2] == p[6] && v4.octets@[3] == p[7]
            &&& port == 256 * p[8] + p[9] && n == 10
        } else {
            &&& p[3] == 3
            &&& v4.octets@[0] == 0 && v4.octets@[1] == 0 && v4.octets@[2] == 0 && v4.octets@[3] == 0
            &&& port == 256 * p[5 + p[4]] + p[6 + p[4]] && n == 7 + p[4]
        },
        IpAddr::V6(v6) => {
            &&& p[3] == 4
            &&& v6.segments@[0] == 256 * p[4] + p[5] && v6.segments@[1] == 256 * p[6] + p[7]
            &&& v6.segments@[2] == 256 * p[8] + p[9] && v6.segments@[3] == 256 * p[10] + p[11]
            &&& v6.segments@[4] == 256 * p[12] + p[13] && v6.segments@[5] == 256 * p[14] + p[15]
            &&& v6.segments@[6] == 256 * p[16] + p[17] && v6.segments@[7] == 256 * p[18] + p[19]
            &&& port == 256 * p[20] + p[21] && n == 22
        },
    }
}

/// A header is read wherever there is one, and from the bytes that it stands in.
pub proof fn a_header_is_read_where_it_stands(p: Seq<u8>, ip: IpAddr, port: u16)
    ensures
        header_len(p) is Some <==> has_header(p),
        header_len(p) matches Some(n) && is_header_address(p, ip) && port == 256 * p[n - 2] + p[n - 1] ==> is_read(
            p,
            ip,
            port,
            header_len(p)->0,
        ),
{
    if header_len(p) is Some && is_header_address(p, ip) {
        match ip {
            IpAddr::V4(v4) => {
                if p[3] == 1 {
                    assert(v4.octets@[0] == p.subrange(4, 8)[0]);
                    assert(v4.octets@[1] == p.subrange(4, 8)[1]);
                    assert(v4.octets@[2] == p.subrange(4, 8)[2]);
                    assert(v4.octets@[3] == p.subrange(4, 8)[3]);
                }
            }
            IpAddr::V6(v6) => {
                assert(v6.segments@[0] == 256 * p[4] + p[5]);
                assert(v6.segments@[1] == 256 * p[6] + p[7]);
                assert(v6.segments@[2] == 256 * p[8] + p[9]);
                assert(v6.segments@[3] == 256 * p[10] + p[11]);
                assert(v6.segments@[4] == 256 * p[12] + p[13]);
                assert(v6.segments@[5] == 256 * p[14] + p[15]);
                assert(v6.segments@[6] == 256 * p[16] + p[17]);
                assert(v6.segments@[7] == 256 * p[18] + p[19]);
            }
        }
    }
}

fn push_all(out: &mut Vec<u8>, bytes: &[u8])
    ensures
        final(out)@ == old(out)@ + bytes@,
{
    let mut i: usize = 0;
    while i < bytes.len()
        invariant
            i <= bytes.len(),
            out@ == old(out)@ + bytes@.take(i as int),
        decreases bytes.len() - i,
    {
        out.push(bytes[i]);
        i = i + 1;
        assert(out@ =~= old(out)@ + bytes@.take(i as int));
    }
    assert(bytes@.take(bytes.len() as int) =~= bytes@);
}

/// Put a header before a datagram. A domain, where one is given, stands in place of
/// the address; its length has to fit the header's length byte.
pub fn encode_socks5_udp(dst_ip: IpAddr, dst_port: u16, domain: Option<&str>, payload: &[u8]) -> (r: Vec<u8>)
    requires
        domain matches Some(name) ==> name.spec_bytes().len() <= 255,
    ensures
        r@ == header(dst_ip, dst_port, domain) + payload@,
        starts_as_datagram(r@, dst_ip, dst_port, domain),
        r@.skip(r@.len() - payload@.len()) == payload@,
{
    let mut out: Vec<u8> = vec![0, 0, 0];
    match domain {
        Some(name) => {
            let bytes = name.as_bytes();
            out.push(3);
            out.push(bytes.len() as u8);
            push_all(&mut out, bytes);
        }
        None => match dst_ip {
            IpAddr::V4(v4) => {
                out.push(1);
                push_all(&mut out, v4.octets.as_slice());
            }
            IpAddr::V6(v6) => {
                out.push(4);
                let mut i: usize = 0;
                let ghost before = out@;
                let ghost all = address_bytes(dst_ip, None).skip(1);
                while i < 8
                    invariant
                        i <= 8,
                        all == address_bytes(IpAddr::V6(v6), None).skip(1),
                        all.len() == 16,
                        out@ == before + all.take(2 * i),
                    decreases 8 - i,
                {
                    out.push((v6.segments[i] / 256) as u8);
                    out.push((v6.segments[i] % 256) as u8);
                    i = i + 1;
                    assert(all.take(2 * i) =~= all.take(2 * i - 2).push(all[2 * i - 2]).push(all[2 * i - 1]));
                    assert(out@ =~= before + all.take(2 * i));
                }
                assert(all.take(16) =~= all);
            }
        },
    }
    out.push((dst_port / 256) as u8);
    out.push((dst_port % 256) as u8);
    assert(out@ =~= header(dst_ip, dst_port, domain));
    push_all(&mut out, payload);
    proof {
        a_header_is_laid_out(dst_ip, dst_port, domain);
        lemma_layout_goes_on(header(dst_ip, dst_port, domain), payload@, dst_ip, dst_port, domain);
        assert(out@.skip(out@.len() - payload@.len()) =~= payload@);
    }
    out
}

/// Where the header of a datagram ends. `None` where there is no header: it is cut
/// short, belongs to a fragment, or has an address of unknown type.
pub open spec fn header_len(p: Seq<u8>) -> Option<int> {
    if p.len() < 4 || p[2] != 0 {
        None
    } else if p[3] == 1 && p.len() >= 10 {
        Some(10)
    } else if p[3] == 4 && p.len() >= 22 {
        Some(22)
    } else if p[3] == 3 && p.len() >= 5 && p.len() >= 7 + p[4] {
        Some(7 + p[4])
    } else {
        None
    }
}

/// The address in a header. A domain reads as the unspecified IPv4 address.
pub open spec fn is_header_address(p: Seq<u8>, ip: IpAddr) -> bool {
    match ip {
        IpAddr::V4(v4) => if p[3] == 1 {
            v4.octets@ == p.subrange(4, 8)
        } else {
            p[3] == 3 && v4.unspecified()
        },
        IpAddr::V6(v6) => p[3] == 4 && forall|i: int|
            0 <= i < 8 ==> #[trigger] v6.segments@[i] == 256 * p[4 + 2 * i] + p[5 + 2 * i],
    }
}

/// Read a datagram's header: the address, the port, and where the payload starts.
pub fn decode_socks5_udp(packet: &[u8]) -> (r: Option<(IpAddr, u16, usize)>)
    ensures
        match r {
            Some((ip, port, n)) => {
                &&& header_len(packet@) == Some(n as int)
                &&& is_header_address(packet@, ip)
                &&& port == 256 * packet@[n - 2] + packet@[n - 1]
            },
            None => header_len(packet@) is None,
        },
        r matches Some((ip, port, n)) ==> is_read(packet@, ip, port, n as int),
        r is None <==> !has_header(packet@),
{
    if packet.len() < 4 || packet[2] != 0 {
        return None;
    }
    let mut n: usize = 0;
    let mut ip: IpAddr = IpAddr::V4(Ipv4Addr::new(0, 0, 0, 0));
    if packet[3] == 1 {
        if packet.len() < 10 {
            return None;
        }
        let v4 = Ipv4Addr::new(packet[4], packet[5], packet[6], packet[7]);
        assert(v4.octets@ =~= packet@.subrange(4, 8));
        ip = IpAddr::V4(v4);
        n = 10;
    } else if packet[3] == 4 {
        if packet.len() < 22 {
            return None;
        }
        let v6 = Ipv6Addr::new(
            256 * packet[4] as u16 + packet[5] as u16,
            256 * packet[6] as u16 + packet[7] as u16,
            256 * packet[8] as u16 + packet[9] as u16,
            256 * packet[10] as u16 + packet[11] as u16,
            256 * packet[12] as u16 + packet[13] as u16,
            256 * packet[14] as u16 + packet[15] as u16,
            256 * packet[16] as u16 + packet[17] as u16,
            256 * packet[18] as u16 + packet[19] as u16,
        );
        assert forall|i: int| 0 <= i < 8 implies #[trigger] v6.segments@[i] == 256 * packet@[4 + 2 * i] + packet@[5 + 2
            * i] by {
            assert(i == 0 || i == 1 || i == 2 || i == 3 || i == 4 || i == 5 || i == 6 || i == 7);
        }
        ip = IpAddr::V6(v6);
        n = 22;
    } else if packet[3] == 3 {
        if packet.len() < 5 || packet.len() < 7 + packet[4] as usize {
            return None;
        }
        n = 7 + packet[4] as usize;
    } else {
        return None;
    }
    let port: u16 = 256 * packet[n - 2] as u16 + packet[n - 1] as u16;
    proof {
        a_header_is_read_where_it_stands(packet@, ip, port);
    }
    Some((ip, port, n))
}

/// A datagram reads back as it was made: the address, or the unspecified one in
/// place of a domain, the port, and the payload behind the header.
pub proof fn a_datagram_reads_back(
    ip: IpAddr,
    port: u16,
    domain: Option<&str>,
    payload: Seq<u8>,
    packet: Seq<u8>,
    read_ip: IpAddr,
    read_port: u16,
    n: int,
)
    requires
        domain matches Some(name) ==> name.spec_bytes().len() <= 255,
        packet == header(ip, port, domain) + payload,
        header_len(packet) == Some(n),
        is_header_address(packet, read_ip),
        read_port == 256 * packet[n - 2] + packet[n - 1],
    ensures
        n == header(ip, port, domain).len(),
        read_port == port,
        packet.skip(n) == payload,
        match (domain, ip) {
            (Some(_), _) => read_ip.unspecified(),
            (None, IpAddr::V4(v4)) => read_ip matches IpAddr::V4(w4) && w4.octets@ == v4.octets@,
            (None, IpAddr::V6(v6)) => read_ip matches IpAddr::V6(w6) && w6.segments@ == v6.segments@,
        },
{
    let h = header(ip, port, domain);
    assert(packet[3] == address_bytes(ip, domain)[0]);
    match domain {
        Some(name) => {
            assert(packet[4] == name.spec_bytes().len() as u8);
        }
        None => {}
    }
    assert(n == h.len());
    assert(packet.skip(n) =~= payload);
    assert(packet[n - 2] == h[n - 2]);
    assert(packet[n - 1] == h[n - 1]);
    match (domain, ip) {
        (None, IpAddr::V4(v4)) => {
            assert(packet.subrange(4, 8) =~= v4.octets@);
        }
        (None, IpAddr::V6(v6)) => {
            let w6 = read_ip->V6_0;
            assert forall|i: int| 0 <= i < 8 implies w6.segments@[i] == v6.segments@[i] by {
                let a = address_bytes(ip, domain);
                assert(packet[4 + 2 * i] == a[1 + 2 * i]);
                assert(packet[5 + 2 * i] == a[2 + 2 * i]);
                assert(2 * i / 2 == i && (2 * i + 1) / 2 == i);
            }
            assert(w6.segments@ =~= v6.segments@);
        }
        _ => {}
    }
}

/// A datagram that was made always has a header to read.
pub proof fn a_datagram_has_a_header(ip: IpAddr, port: u16, domain: Option<&str>, payload: Seq<u8>)
    requires
        domain matches Some(name) ==> name.spec_bytes().len() <= 255,
    ensures
        header_len(header(ip, port, domain) + payload) == Some(header(ip, port, domain).len() as int),
{
    let packet = header(ip, port, domain) + payload;
    assert(packet[2] == 0);
    assert(packet[3] == address_bytes(ip, domain)[0]);
    match domain {
        Some(name) => {
            assert(packet[4] == name.spec_bytes().len() as u8);
        }
        None => {}
    }
}

/// The header byte by byte, for each kind of destination: two reserved bytes and the
/// fragment number are zero, the type byte says what follows, numbers have their most
/// significant octet first, and the port ends it.
pub proof fn the_bytes_of_a_header(v4: Ipv4Addr, v6: Ipv6Addr, name: &str, any: IpAddr, port: u16)
    requires
        name.spec_bytes().len() <= 255,
    ensures
        ({
            let h = header(IpAddr::V4(v4), port, None);
            &&& h.len() == 10 && h[0] == 0 && h[1] == 0 && h[2] == 0 && h[3] == 1
            &&& h[4] == v4.octets@[0] && h[5] == v4.octets@[1] && h[6] == v4.octets@[2] && h[7] == v4.octets@[3]
            &&& h[8] * 256 + h[9] == port
        }),
        ({
            let h = header(IpAddr::V6(v6), port, None);
            &&& h.len() == 22 && h[0] == 0 && h[1] == 0 && h[2] == 0 && h[3] == 4
            &&& forall|i: int| 0 <= i < 8 ==> h[4 + 2 * i] * 256 + h[5 + 2 * i] == #[trigger] v6.segments@[i]
            &&& h[20] * 256 + h[21] == port
        }),
        ({
            let h = header(any, port, Some(name));
            let n = name.spec_bytes().len() as int;
            &&& h.len() == 7 + n && h[0] == 0 && h[1] == 0 && h[2] == 0 && h[3] == 3 && h[4] == n
            &&& h.subrange(5, 5 + n) == name.spec_bytes()
            &&& h[5 + n] * 256 + h[6 + n] == port
        }),
{
    a_header_is_laid_out(IpAddr::V4(v4), port, None);
    a_header_is_laid_out(IpAddr::V6(v6), port, None);
    a_header_is_laid_out(any, port, Some(name));
    let h = header(any, port, Some(name));
    let n = name.spec_bytes().len() as int;
    assert forall|i: int| 0 <= i < n implies h.subrange(5, 5 + n)[i] == name.spec_bytes()[i] by {
        assert(h[5 + i] == name.spec_bytes()[i]);
    }
    assert(h.subrange(5, 5 + n) =~= name.spec_bytes());
}

/// A header is found exactly where the packet is no fragment and holds all that its
/// address type asks for; its length is the type's, and the address is the octets that
/// stand in it, most significant first. A domain yields no address.
pub proof fn the_bytes_that_are_read(p: Seq<u8>, ip: IpAddr)
    ensures
        header_len(p) is Some <==> p.len() >= 4 && p[2] == 0 && ((p[3] == 1 && p.len() >= 10) || (p[3] == 4 && p.len()
            >= 22) || (p[3] == 3 && p.len() >= 5 && p.len() >= p[4] + 7)),
        header_len(p) matches Some(n) ==> n == if p[3] == 1 {
            10int
        } else if p[3] == 4 {
            22int
        } else {
            p[4] + 7
        },
        header_len(p) is Some && is_header_address(p, ip) ==> match ip {
            IpAddr::V4(v4) => if p[3] == 1 {
                v4.octets@[0] == p[4] && v4.octets@[1] == p[5] && v4.octets@[2] == p[6] && v4.octets@[3] == p[7]
            } else {
                p[3] == 3 && v4.octets@[0] == 0 && v4.octets@[1] == 0 && v4.octets@[2] == 0 && v4.octets@[3] == 0
            },
            IpAddr::V6(v6) => p[3] == 4 && forall|i: int|
                0 <= i < 8 ==> p[4 + 2 * i] * 256 + p[5 + 2 * i] == #[trigger] v6.segments@[i],
        },
{
    if header_len(p) is Some && is_header_address(p, ip) {
        if let IpAddr::V4(v4) = ip {
            if p[3] == 1 {
                assert(v4.octets@[0] == p.subrange(4, 8)[0]);
                assert(v4.octets@[1] == p.subrange(4, 8)[1]);
                assert(v4.octets@[2] == p.subrange(4, 8)[2]);
                assert(v4.octets@[3] == p.subrange(4, 8)[3]);
            }
        }
    }
}

} // verus!
