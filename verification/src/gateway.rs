//! The upstream route: what the operating system's answers mean.
//!
//! The routing table is asked elsewhere. This module reads a query's status, an
//! interface alias and a next hop, and says which gateway the server bypass can
//! use.

use vstd::prelude::*;
use crate::ip::{IpAddr, Ipv4Addr, Ipv6Addr};
use crate::text::{lemma_occurs_inside, numeral, occurs, push_numeral, push_signed, signed_numeral};

pub mod laws;
pub mod utf16;

use utf16::decode_lossy;

verus! {

/// The upstream route a failure is about. Diagnostic only: nothing in it belongs
/// in front of a user, so it has no text form.
#[derive(Debug, Clone, PartialEq, Eq)]
pub struct HopDetail {
    /// The interface's alias, for example `Wi-Fi`.
    pub interface_alias: String,
    /// The interface's index.
    pub interface_index: u32,
    /// The next hop the route named. Unspecified means the route is on-link.
    pub next_hop: IpAddr,
}

/// An error of the operating system.
#[derive(Debug, Clone, PartialEq, Eq)]
pub enum OsError {
    /// A raw status code.
    Raw(i32),
    /// A description.
    Other(String),
}

impl OsError {
    pub open spec fn text(self) -> Seq<char> {
        match self {
            OsError::Raw(code) => "os error "@ + signed_numeral(code as int),
            OsError::Other(s) => s@,
        }
    }

    /// The error as text.
    pub fn message(&self) -> (r: String)
        ensures
            r@ == self.text(),
    {
        match self {
            OsError::Raw(code) => {
                let mut out = "os error ".to_owned();
                push_signed(&mut out, *code);
                out
            }
            OsError::Other(s) => s.clone(),
        }
    }
}

/// Why no upstream gateway is known.
///
/// [`GatewayError::message`] is the sentence for the user and carries no detail;
/// [`GatewayError::detail`] is for the log.
#[derive(Debug, Clone, PartialEq, Eq)]
pub enum GatewayError {
    /// The routing table answered that nothing routes off this host.
    NoDefaultRoute,
    /// The default route has no gateway that a bypass could go through.
    NoUsableGateway { detail: HopDetail },
    /// The route lookup itself failed. `code` is the raw status.
    RouteQueryFailed { code: u32, source: OsError },
    /// A route was found, but its interface could not be named.
    InterfaceNameUnavailable { interface_index: u32, source: OsError },
}

impl GatewayError {
    /// The sentence for the user.
    pub open spec fn sentence(self) -> Seq<char> {
        match self {
            GatewayError::NoDefaultRoute =>
                "No default network route was found. Hole needs an active Internet connection before it can build the tunnel."@,
            GatewayError::NoUsableGateway { .. } =>
                "Your default network route has no gateway Hole can route around, so the tunnel cannot be built. This happens when another VPN is handling your traffic, and on point-to-point links such as some mobile and PPP connections. See bridge.log for the adapter involved."@,
            GatewayError::RouteQueryFailed { .. } =>
                "Could not read the system routing table. See bridge.log for details."@,
            GatewayError::InterfaceNameUnavailable { .. } =>
                "The upstream network adapter could not be identified. See bridge.log for details."@,
        }
    }

    /// The error as the sentence for the user.
    pub fn message(&self) -> (r: String)
        ensures
            r@ == self.sentence(),
    {
        match self {
            GatewayError::NoDefaultRoute =>
                "No default network route was found. Hole needs an active Internet connection before it can build the tunnel.".to_owned(),
            GatewayError::NoUsableGateway { .. } =>
                "Your default network route has no gateway Hole can route around, so the tunnel cannot be built. This happens when another VPN is handling your traffic, and on point-to-point links such as some mobile and PPP connections. See bridge.log for the adapter involved.".to_owned(),
            GatewayError::RouteQueryFailed { .. } =>
                "Could not read the system routing table. See bridge.log for details.".to_owned(),
            GatewayError::InterfaceNameUnavailable { .. } =>
                "The upstream network adapter could not be identified. See bridge.log for details.".to_owned(),
        }
    }
}

impl GatewayError {
    /// What the log says.
    pub open spec fn detail_text(self) -> Seq<char> {
        match self {
            GatewayError::NoDefaultRoute => "no default route"@,
            GatewayError::NoUsableGateway { detail } => ("no usable gateway: adapter "@ + detail.interface_alias@)
                + (", interface "@ + numeral(detail.interface_index as nat, 10)) + (", next hop "@
                + detail.next_hop.text()),
            GatewayError::RouteQueryFailed { code, source } => ("route query failed: status "@ + numeral(
                code as nat,
                10,
            )) + (": "@ + source.text()),
            GatewayError::InterfaceNameUnavailable { interface_index, source } => ("no name for interface "@ + numeral(
                interface_index as nat,
                10,
            )) + (": "@ + source.text()),
        }
    }

    /// The error with all its detail, for the log.
    pub fn detail(&self) -> (r: String)
        ensures
            r@ == self.detail_text(),
    {
        match self {
            GatewayError::NoDefaultRoute => "no default route".to_owned(),
            GatewayError::NoUsableGateway { detail } => {
                let mut out = "no usable gateway: adapter ".to_owned();
                out.append(detail.interface_alias.as_str());
                out.append(", interface ");
                push_numeral(&mut out, detail.interface_index as u64, 10);
                out.append(", next hop ");
                out.append(detail.next_hop.to_text().as_str());
                assert(out@ =~= self.detail_text());
                out
            }
            GatewayError::RouteQueryFailed { code, source } => {
                let mut out = "route query failed: status ".to_owned();
                push_numeral(&mut out, *code as u64, 10);
                out.append(": ");
                out.append(source.message().as_str());
                assert(out@ =~= self.detail_text());
                out
            }
            GatewayError::InterfaceNameUnavailable { interface_index, source } => {
                let mut out = "no name for interface ".to_owned();
                push_numeral(&mut out, *interface_index as u64, 10);
                out.append(": ");
                out.append(source.message().as_str());
                assert(out@ =~= self.detail_text());
                out
            }
        }
    }

    /// The system error behind this one, where there is one.
    pub fn source(&self) -> (r: Option<&OsError>)
        ensures
            match *self {
                GatewayError::RouteQueryFailed { code: _, source } => r == Some(&source),
                GatewayError::InterfaceNameUnavailable { interface_index: _, source } => r == Some(&source),
                _ => r is None,
            },
    {
        match self {
            GatewayError::RouteQueryFailed { code: _, source } => Some(source),
            GatewayError::InterfaceNameUnavailable { interface_index: _, source } => Some(source),
            _ => None,
        }
    }
}

/// The log keeps what the sentence hides: the adapter, the index and the next hop of
/// a route that cannot be used, and the status and the words of a system error.
pub proof fn detail_keeps_what_the_sentence_hides(e: GatewayError)
    ensures
        match e {
            GatewayError::NoDefaultRoute => true,
            GatewayError::NoUsableGateway { detail } => occurs(e.detail_text(), detail.interface_alias@) && occurs(
                e.detail_text(),
                numeral(detail.interface_index as nat, 10),
            ) && occurs(e.detail_text(), detail.next_hop.text()),
            GatewayError::RouteQueryFailed { code, source } => occurs(
                e.detail_text(),
                numeral(code as nat, 10),
            ) && occurs(e.detail_text(), source.text()),
            GatewayError::InterfaceNameUnavailable { interface_index, source } => occurs(
                e.detail_text(),
                numeral(interface_index as nat, 10),
            ) && occurs(e.detail_text(), source.text()),
        },
{
    match e {
        GatewayError::NoDefaultRoute => {}
        GatewayError::NoUsableGateway { detail } => {
            let a = detail.interface_alias@;
            let b = numeral(detail.interface_index as nat, 10);
            let c = detail.next_hop.text();
            let pre = "no usable gateway: adapter "@;
            let mid = ", interface "@;
            let end = ", next hop "@;
            lemma_occurs_inside(pre, a, (mid + b) + (end + c));
            assert((pre + a) + ((mid + b) + (end + c)) =~= e.detail_text());
            lemma_occurs_inside((pre + a) + mid, b, end + c);
            assert(((pre + a) + mid + b) + (end + c) =~= e.detail_text());
            lemma_occurs_inside((pre + a) + (mid + b) + end, c, seq![]);
            assert(((pre + a) + (mid + b) + end + c) + Seq::<char>::empty() =~= e.detail_text());
        }
        GatewayError::RouteQueryFailed { code, source } => {
            let a = numeral(code as nat, 10);
            let b = source.text();
            let pre = "route query failed: status "@;
            lemma_occurs_inside(pre, a, ": "@ + b);
            assert((pre + a) + (": "@ + b) =~= e.detail_text());
            lemma_occurs_inside((pre + a) + ": "@, b, seq![]);
            assert(((pre + a) + ": "@ + b) + Seq::<char>::empty() =~= e.detail_text());
        }
        GatewayError::InterfaceNameUnavailable { interface_index, source } => {
            let a = numeral(interface_index as nat, 10);
            let b = source.text();
            let pre = "no name for interface "@;
            lemma_occurs_inside(pre, a, ": "@ + b);
            assert((pre + a) + (": "@ + b) =~= e.detail_text());
            lemma_occurs_inside((pre + a) + ": "@, b, seq![]);
            assert(((pre + a) + ": "@ + b) + Seq::<char>::empty() =~= e.detail_text());
        }
    }
}

/// The sentence for the user carries no detail: two errors of one kind read the
/// same, whatever adapter, index, address or system error they hold.
pub proof fn sentence_hides_the_detail(a: GatewayError, b: GatewayError)
    requires
        a is NoDefaultRoute <==> b is NoDefaultRoute,
        a is NoUsableGateway <==> b is NoUsableGateway,
        a is RouteQueryFailed <==> b is RouteQueryFailed,
        a is InterfaceNameUnavailable <==> b is InterfaceNameUnavailable,
    ensures
        a.sentence() == b.sentence(),
{
}

/// One route as the operating system reported it.
#[derive(Debug, Clone, PartialEq, Eq)]
pub struct RouteHop {
    pub next_hop: IpAddr,
    pub interface_index: u32,
    pub interface_alias: String,
}

/// How the default route leaves the host.
#[derive(Debug, Clone, Copy, PartialEq, Eq)]
pub enum NextHop {
    /// Straight onto the interface, with no gateway in between.
    OnLink,
    /// Through this gateway.
    Via(IpAddr),
}

/// The default gateway and the interface behind it.
#[derive(Debug, Clone, PartialEq, Eq)]
pub struct GatewayInfo {
    pub gateway_ip: IpAddr,
    pub next_hop: NextHop,
    pub interface_name: String,
    pub interface_index: u32,
    pub ipv6_available: bool,
}

pub open spec fn next_hop_of(address: IpAddr) -> NextHop {
    if address.unspecified() {
        NextHop::OnLink
    } else {
        NextHop::Via(address)
    }
}

/// Say what an upstream route is good for.
///
/// No route is [`GatewayError::NoDefaultRoute`], and a route whose interface has
/// no alias is refused. An on-link route is a form of route, not a refusal.
pub fn classify_hop(hop: Option<RouteHop>, ipv6_available: bool) -> (r: Result<GatewayInfo, GatewayError>)
    ensures
        match hop {
            None => r == Err::<GatewayInfo, GatewayError>(GatewayError::NoDefaultRoute),
            Some(h) if h.interface_alias@.len() == 0 => r matches Err(GatewayError::InterfaceNameUnavailable {
                interface_index,
                source: OsError::Other(s),
            }) && interface_index == h.interface_index && s@ == "the interface has no alias"@,
            Some(h) => r == Ok::<GatewayInfo, GatewayError>(GatewayInfo {
                gateway_ip: h.next_hop,
                next_hop: next_hop_of(h.next_hop),
                interface_name: h.interface_alias,
                interface_index: h.interface_index,
                ipv6_available,
            }),
        },
{
    match hop {
        None => Err(GatewayError::NoDefaultRoute),
        Some(h) => {
            if h.interface_alias.as_str().unicode_len() == 0 {
                return Err(
                    GatewayError::InterfaceNameUnavailable {
                        interface_index: h.interface_index,
                        source: OsError::Other("the interface has no alias".to_owned()),
                    },
                );
            }
            let next_hop = if h.next_hop.is_unspecified() {
                NextHop::OnLink
            } else {
                NextHop::Via(h.next_hop)
            };
            Ok(
                GatewayInfo {
                    gateway_ip: h.next_hop,
                    next_hop,
                    interface_name: h.interface_alias,
                    interface_index: h.interface_index,
                    ipv6_available,
                },
            )
        }
    }
}

/// macOS has no interface-scoped IPv4 bypass, so an on-link route is no default
/// route there. Any other passes through unchanged.
pub fn reject_macos_on_link(info: GatewayInfo) -> (r: Result<GatewayInfo, GatewayError>)
    ensures
        r == match info.next_hop {
            NextHop::OnLink => Err::<GatewayInfo, GatewayError>(GatewayError::NoDefaultRoute),
            NextHop::Via(_) => Ok(info),
        },
{
    match info.next_hop {
        NextHop::OnLink => Err(GatewayError::NoDefaultRoute),
        NextHop::Via(_) => Ok(info),
    }
}

/// Success.
pub const NO_ERROR: u32 = 0;

/// The element or route does not exist.
pub const ERROR_NOT_FOUND: u32 = 1168;

/// The network cannot be reached.
pub const ERROR_NETWORK_UNREACHABLE: u32 = 1231;

/// The host cannot be reached.
pub const ERROR_HOST_UNREACHABLE: u32 = 1232;

/// A status that answers the question "is there a route" with no.
pub open spec fn is_reachability(code: u32) -> bool {
    code == ERROR_NETWORK_UNREACHABLE || code == ERROR_HOST_UNREACHABLE || code == ERROR_NOT_FOUND
}

/// Classify a failed route query's status.
///
/// `None` is a definitive "no route": the table was read, and it said no. Every
/// other status is a failure of the query and keeps its raw code.
pub fn map_query_error(code: u32) -> (r: Option<GatewayError>)
    ensures
        r == if is_reachability(code) {
            None::<GatewayError>
        } else {
            Some(GatewayError::RouteQueryFailed { code, source: OsError::Raw(code as i32) })
        },
{
    if code == ERROR_NETWORK_UNREACHABLE || code == ERROR_HOST_UNREACHABLE || code == ERROR_NOT_FOUND {
        return None;
    }
    Some(GatewayError::RouteQueryFailed { code, source: OsError::Raw(code as i32) })
}

/// The address family of an IPv4 socket address.
pub const AF_INET: u16 = 2;

/// The address family of an IPv6 socket address.
pub const AF_INET6: u16 = 23;

/// A socket address as its family field and the two readings of its payload.
#[derive(Debug, Clone, Copy, PartialEq, Eq)]
pub struct SockAddr {
    pub family: u16,
    pub v4: [u8; 4],
    pub v6: [u8; 16],
}

/// The address that `sa` holds. Every family but IPv6 reads as IPv4.
pub open spec fn holds_address(sa: SockAddr, addr: IpAddr) -> bool {
    match addr {
        IpAddr::V6(v6) => sa.family == AF_INET6 && forall|i: int|
            0 <= i < 8 ==> #[trigger] v6.segments@[i] == 256 * sa.v6@[2 * i] + sa.v6@[2 * i + 1],
        IpAddr::V4(v4) => sa.family != AF_INET6 && v4.octets == sa.v4,
    }
}

/// The socket address of an address.
pub fn to_sockaddr_inet(addr: IpAddr) -> (r: SockAddr)
    ensures
        holds_address(r, addr),
        r.family == match addr {
            IpAddr::V4(_) => AF_INET,
            IpAddr::V6(_) => AF_INET6,
        },
{
    match addr {
        IpAddr::V4(v4) => SockAddr { family: AF_INET, v4: v4.octets, v6: [0; 16] },
        IpAddr::V6(v6) => SockAddr { family: AF_INET6, v4: [0; 4], v6: v6.octets() },
    }
}

/// The address in `sa`. Every family but IPv6 reads as IPv4: an on-link route
/// comes without a family and with a zero payload, the unspecified address.
pub fn from_sockaddr_inet(sa: &SockAddr) -> (r: IpAddr)
    ensures
        holds_address(*sa, r),
{
    if sa.family == AF_INET6 {
        IpAddr::V6(Ipv6Addr::from_octets(sa.v6))
    } else {
        IpAddr::V4(Ipv4Addr { octets: sa.v4 })
    }
}

/// The route that a lookup found, as read from the table.
#[derive(Debug, Clone)]
pub struct RouteRow {
    pub interface_index: u32,
    /// Status of the alias lookup.
    pub alias_status: u32,
    /// What the alias lookup wrote, in UTF-16 up to a zero.
    pub alias: Vec<u16>,
    pub next_hop: SockAddr,
}

/// Where the text in a zero-terminated buffer ends.
pub open spec fn text_end(buf: Seq<u16>) -> nat
    decreases buf.len(),
{
    if buf.len() == 0 || buf[0] == 0 {
        0
    } else {
        1 + text_end(buf.drop_first())
    }
}

/// The text in a zero-terminated UTF-16 buffer, or in all of it where no zero
/// ends it. What is not UTF-16 reads as U+FFFD.
pub fn alias_text(buf: &Vec<u16>) -> (r: String)
    ensures
        r@ == utf16::decoded(buf@.take(text_end(buf@) as int)),
{
    let mut n: usize = 0;
    assert(buf@.skip(0) =~= buf@);
    while n < buf.len() && buf[n] != 0
        invariant
            n <= buf.len(),
            n + text_end(buf@.skip(n as int)) == text_end(buf@),
        decreases buf.len() - n,
    {
        assert(buf@.skip(n as int).drop_first() =~= buf@.skip(n + 1));
        n = n + 1;
    }
    decode_lossy(buf, n)
}

/// Read a found route: its interface's name and its next hop.
pub fn route_hop(row: &RouteRow) -> (r: Result<RouteHop, GatewayError>)
    ensures
        match r {
            Ok(hop) => {
                &&& row.alias_status == NO_ERROR
                &&& hop.interface_index == row.interface_index
                &&& hop.interface_alias@ == utf16::decoded(row.alias@.take(text_end(row.alias@) as int))
                &&& holds_address(row.next_hop, hop.next_hop)
            },
            Err(e) => row.alias_status != NO_ERROR && e == (GatewayError::InterfaceNameUnavailable {
                interface_index: row.interface_index,
                source: OsError::Raw(row.alias_status as i32),
            }),
        },
{
    if row.alias_status != NO_ERROR {
        return Err(
            GatewayError::InterfaceNameUnavailable {
                interface_index: row.interface_index,
                source: OsError::Raw(row.alias_status as i32),
            },
        );
    }
    Ok(
        RouteHop {
            next_hop: from_sockaddr_inet(&row.next_hop),
            interface_index: row.interface_index,
            interface_alias: alias_text(&row.alias),
        },
    )
}

/// Ask which route leads to a destination, by the status of the lookup and the row
/// that it found. Three answers that differ: a route, no route, and a lookup that
/// failed. The row is read only where the lookup succeeded.
pub fn best_route(status: u32, row: &RouteRow) -> (r: Result<Option<RouteHop>, GatewayError>)
    ensures
        if status != NO_ERROR {
            r == if is_reachability(status) {
                Ok::<Option<RouteHop>, GatewayError>(None)
            } else {
                Err(GatewayError::RouteQueryFailed { code: status, source: OsError::Raw(status as i32) })
            }
        } else if row.alias_status != NO_ERROR {
            r == Err::<Option<RouteHop>, GatewayError>(
                GatewayError::InterfaceNameUnavailable {
                    interface_index: row.interface_index,
                    source: OsError::Raw(row.alias_status as i32),
                },
            )
        } else {
            r matches Ok(Some(hop)) && hop.interface_index == row.interface_index && hop.interface_alias@
                == utf16::decoded(row.alias@.take(text_end(row.alias@) as int)) && holds_address(
                row.next_hop,
                hop.next_hop,
            )
        },
{
    if status != NO_ERROR {
        return match map_query_error(status) {
            None => Ok(None),
            Some(e) => Err(e),
        };
    }
    match route_hop(row) {
        Ok(hop) => Ok(Some(hop)),
        Err(e) => Err(e),
    }
}

/// A socket address holds one address: what is read from it is what was written.
pub proof fn a_socket_address_reads_back(sa: SockAddr, written: IpAddr, read: IpAddr)
    requires
        holds_address(sa, written),
        holds_address(sa, read),
    ensures
        written == read,
{
    if let (IpAddr::V6(a), IpAddr::V6(b)) = (written, read) {
        assert forall|i: int| 0 <= i < 8 implies a.segments@[i] == b.segments@[i] by {}
        assert(a.segments =~= b.segments);
    }
}

} // verus!
