//! What the operating system's answers come to, said of the raw values.

use vstd::prelude::*;
use crate::gateway::utf16::decoded;
use crate::gateway::{
    holds_address, is_reachability, next_hop_of, text_end, GatewayError, NextHop, OsError, SockAddr, AF_INET,
    AF_INET6, ERROR_NOT_FOUND, NO_ERROR,
};
use crate::ip::{IpAddr, Ipv6Addr};
use crate::net::metric::{metric_outcome, MetricOutcome, TUNNEL_INTERFACE_METRIC};
use crate::reading::{a_numeral_reads_back, a_signed_numeral_reads_back, all_digits, number};
use crate::text::signed_numeral;

verus! {

/// A route is on-link exactly where its next hop is all zero; any other next hop is
/// the gateway itself.
pub proof fn only_a_zero_next_hop_is_on_link(address: IpAddr)
    ensures
        next_hop_of(address) is OnLink <==> match address {
            IpAddr::V4(v4) => v4.octets@[0] == 0 && v4.octets@[1] == 0 && v4.octets@[2] == 0 && v4.octets@[3] == 0,
            IpAddr::V6(v6) => {
                let s = v6.segments@;
                s[0] == 0 && s[1] == 0 && s[2] == 0 && s[3] == 0 && s[4] == 0 && s[5] == 0 && s[6] == 0 && s[7] == 0
            },
        },
        next_hop_of(address) is Via ==> next_hop_of(address) == NextHop::Via(address),
{
    match address {
        IpAddr::V4(v4) => {
            let o = v4.octets@;
            if o[0] == 0 && o[1] == 0 && o[2] == 0 && o[3] == 0 {
                assert forall|i: int| 0 <= i < 4 implies o[i] == 0 by {
                    assert(i == 0 || i == 1 || i == 2 || i == 3);
                }
            }
        }
        IpAddr::V6(v6) => {
            let s = v6.segments@;
            if s[0] == 0 && s[1] == 0 && s[2] == 0 && s[3] == 0 && s[4] == 0 && s[5] == 0 && s[6] == 0 && s[7] == 0 {
                assert forall|i: int| 0 <= i < 8 implies s[i] == 0 by {
                    assert(i == 0 || i == 1 || i == 2 || i == 3 || i == 4 || i == 5 || i == 6 || i == 7);
                }
            }
        }
    }
}

/// Three statuses answer that there is no route: the network or the host cannot be
/// reached, or nothing was found. Success is none of them.
pub proof fn three_statuses_answer_no_route(code: u32)
    ensures
        is_reachability(code) <==> code == 1231 || code == 1232 || code == 1168,
        NO_ERROR == 0,
        ERROR_NOT_FOUND == 1168,
{
}

/// A metric is applied on success, an interface without a row for the family is told
/// apart, and every other status is an error that keeps its code.
pub proof fn only_a_missing_row_is_no_error(status: u32)
    ensures
        metric_outcome(status) == if status == 0 {
            Ok::<MetricOutcome, OsError>(MetricOutcome::Applied)
        } else if status == 1168 {
            Ok(MetricOutcome::NoInterfaceRow)
        } else {
            Err(OsError::Raw(status as i32))
        },
        TUNNEL_INTERFACE_METRIC == 1,
{
}

/// A socket address is read by its family, octets in network order: an IPv6 address
/// from its own family alone, and an IPv4 address from every other.
pub proof fn a_socket_address_is_read_by_its_family(sa: SockAddr, addr: IpAddr)
    requires
        holds_address(sa, addr),
    ensures
        addr is V6 <==> sa.family == 23,
        match addr {
            IpAddr::V4(v4) => v4.octets@ == sa.v4@,
            IpAddr::V6(v6) => {
                let s = v6.segments@;
                let b = sa.v6@;
                &&& s[0] == 256 * b[0] + b[1] && s[1] == 256 * b[2] + b[3]
                &&& s[2] == 256 * b[4] + b[5] && s[3] == 256 * b[6] + b[7]
                &&& s[4] == 256 * b[8] + b[9] && s[5] == 256 * b[10] + b[11]
                &&& s[6] == 256 * b[12] + b[13] && s[7] == 256 * b[14] + b[15]
            },
        },
        AF_INET == 2,
        AF_INET6 == 23,
{
    if let IpAddr::V6(v6) = addr {
        let s = v6.segments@;
        let b = sa.v6@;
        assert(s[0] == 256 * b[0] + b[1]);
        assert(s[1] == 256 * b[2] + b[3]);
        assert(s[2] == 256 * b[4] + b[5]);
        assert(s[3] == 256 * b[6] + b[7]);
        assert(s[4] == 256 * b[8] + b[9]);
        assert(s[5] == 256 * b[10] + b[11]);
        assert(s[6] == 256 * b[12] + b[13]);
        assert(s[7] == 256 * b[14] + b[15]);
    }
}

/// An IPv4-mapped address is the one whose first eighty bits are zero and whose next
/// sixteen are all set, and the rest are its octets in order. An address is loopback
/// or unspecified by all of its bits.
pub proof fn how_ipv6_addresses_are_told_apart(ip: Ipv6Addr)
    ensures
        ({
            let s = ip.segments@;
            let zeros = s[0] == 0 && s[1] == 0 && s[2] == 0 && s[3] == 0 && s[4] == 0;
            let o = ip.mapped_octets();
            &&& ip.mapped() <==> zeros && s[5] == 65535
            &&& o.len() == 4 && s[6] == 256 * o[0] + o[1] && s[7] == 256 * o[2] + o[3]
            &&& ip.loopback() <==> zeros && s[5] == 0 && s[6] == 0 && s[7] == 1
            &&& ip.unspecified() <==> zeros && s[5] == 0 && s[6] == 0 && s[7] == 0
        }),
{
    let s = ip.segments@;
    if s[0] == 0 && s[1] == 0 && s[2] == 0 && s[3] == 0 && s[4] == 0 && s[5] == 0 && s[6] == 0 {
        assert forall|i: int| 0 <= i < 7 implies s[i] == 0 by {
            assert(i == 0 || i == 1 || i == 2 || i == 3 || i == 4 || i == 5 || i == 6);
        }
        if s[7] == 0 {
            assert forall|i: int| 0 <= i < 8 implies s[i] == 0 by {
                assert(i < 7 || i == 7);
            }
        }
    }
}

/// The text in a buffer ends at its first zero, or where the buffer ends.
pub proof fn text_ends_at_the_first_zero(buf: Seq<u16>)
    ensures
        text_end(buf) <= buf.len(),
        forall|i: int| 0 <= i < text_end(buf) ==> buf[i] != 0,
        text_end(buf) < buf.len() ==> buf[text_end(buf) as int] == 0,
    decreases buf.len(),
{
    if buf.len() > 0 && buf[0] != 0 {
        let rest = buf.drop_first();
        text_ends_at_the_first_zero(rest);
        assert forall|i: int| 0 <= i < text_end(buf) implies buf[i] != 0 by {
            if i > 0 {
                assert(rest[i - 1] == buf[i]);
            }
        }
    }
}

/// The units that UTF-16 writes a character in.
pub open spec fn units(c: char) -> Seq<u16> {
    let u = c as u32;
    if u < 0x10000 {
        seq![u as u16]
    } else {
        seq![(0xd800 + (u - 0x10000) / 0x400) as u16, (0xdc00 + (u - 0x10000) % 0x400) as u16]
    }
}

/// A text in UTF-16.
pub open spec fn encoded(s: Seq<char>) -> Seq<u16>
    decreases s.len(),
{
    if s.len() == 0 {
        seq![]
    } else {
        units(s[0]) + encoded(s.drop_first())
    }
}

/// A character in UTF-16 reads as that character, and what follows it reads on.
proof fn lemma_units(c: char, rest: Seq<u16>)
    ensures
        decoded(units(c) + rest) == seq![c] + decoded(rest),
{
    let s = units(c) + rest;
    let u = c as u32;
    if u < 0x10000 {
        assert(s[0] == u);
        assert(s.drop_first() =~= rest);
        assert(s[0] as char == c);
    } else {
        let hi = s[0];
        let lo = s[1];
        assert(s.skip(2) =~= rest);
        assert(0x10000 + (hi - 0xd800) * 0x400 + (lo - 0xdc00) == u);
        assert((0x10000 + (hi - 0xd800) * 0x400 + (lo - 0xdc00)) as char == c);
    }
}

/// Any text that was written in UTF-16 reads back as it was, in every plane.
pub proof fn utf16_reads_back(s: Seq<char>)
    ensures
        decoded(encoded(s)) == s,
    decreases s.len(),
{
    if s.len() > 0 {
        utf16_reads_back(s.drop_first());
        lemma_units(s[0], encoded(s.drop_first()));
        assert(seq![s[0]] + s.drop_first() =~= s);
    } else {
        assert(decoded(encoded(s)) =~= s);
    }
}

/// Half of a surrogate pair without its other half reads as U+FFFD, and costs nothing
/// of what follows.
pub proof fn a_lone_surrogate_reads_as_the_replacement(u: u16, rest: Seq<u16>)
    requires
        0xd800 <= u <= 0xdfff,
        u <= 0xdbff ==> rest.len() == 0 || !(0xdc00 <= rest[0] <= 0xdfff),
    ensures
        decoded(seq![u] + rest) == seq!['\u{fffd}'] + decoded(rest),
{
    let s = seq![u] + rest;
    assert(s[0] == u);
    assert(s.drop_first() =~= rest);
    if s.len() > 1 {
        assert(s[1] == rest[0]);
    }
}

/// The sentence for the user names none of the detail that the log has: no address, no
/// index and no status is in it, for it has no digit.
pub proof fn the_sentences_have_no_digit(e: GatewayError, i: int)
    requires
        0 <= i < e.sentence().len(),
    ensures
        !('0' as u32 <= e.sentence()[i] as u32 <= '9' as u32),
{
    reveal_strlit(
        "No default network route was found. Hole needs an active Internet connection before it can build the tunnel.",
    );
    reveal_strlit(
        "Your default network route has no gateway Hole can route around, so the tunnel cannot be built. This happens when another VPN is handling your traffic, and on point-to-point links such as some mobile and PPP connections. See bridge.log for the adapter involved.",
    );
    reveal_strlit("Could not read the system routing table. See bridge.log for details.");
    reveal_strlit("The upstream network adapter could not be identified. See bridge.log for details.");
}

/// A system error tells its code, a negative one with its sign, or its words.
pub proof fn a_system_error_tells_its_code(e: OsError)
    ensures
        match e {
            OsError::Other(words) => e.text() == words@,
            OsError::Raw(code) => {
                let digits = e.text().skip(9);
                &&& e.text().len() > 9 && e.text().take(9) == "os error "@
                &&& code >= 0 ==> number(digits, 10) == code && all_digits(digits, 10)
                &&& code < 0 ==> digits[0] == '-' && number(digits.skip(1), 10) == -(code as int) && all_digits(
                    digits.skip(1),
                    10,
                )
            },
        },
{
    reveal_strlit("os error ");
    if let OsError::Raw(code) = e {
        a_signed_numeral_reads_back(code as int);
        assert(e.text().take(9) =~= "os error "@);
        assert(e.text().skip(9) =~= signed_numeral(code as int));
        if code >= 0 {
            a_numeral_reads_back(code as nat, 10);
        }
    }
}

} // verus!
