//! The upstream gateway: its classification, its errors and the rows it is read from.

use tun_engine::gateway::{
    alias_text, best_route, classify_hop, from_sockaddr_inet, map_query_error, reject_macos_on_link, route_hop,
    to_sockaddr_inet, GatewayError, HopDetail, NextHop, OsError, RouteHop, RouteRow, SockAddr, AF_INET6,
    ERROR_HOST_UNREACHABLE, ERROR_NETWORK_UNREACHABLE, ERROR_NOT_FOUND,
};
use tun_engine::ip::{IpAddr, Ipv4Addr, Ipv6Addr};

const ERROR_ACCESS_DENIED: u32 = 5;
const ERROR_INVALID_PARAMETER: u32 = 87;
const ERROR_INVALID_NETNAME: u32 = 1214;

fn sample_detail() -> HopDetail {
    HopDetail {
        interface_alias: "ProtonVPN TUN".into(),
        interface_index: 42,
        next_hop: IpAddr::V4(Ipv4Addr::new(0, 0, 0, 0)),
    }
}

#[test]
fn display_strings_are_the_user_facing_copy() {
    assert_eq!(GatewayError::NoDefaultRoute.message(), "No default network route was found. Hole needs an active Internet connection before it \
             can build the tunnel.");
    assert_eq!(GatewayError::NoUsableGateway { detail: sample_detail() }.message(), "Your default network route has no gateway Hole can route around, so the tunnel cannot \
             be built. This happens when another VPN is handling your traffic, and on point-to-point \
             links such as some mobile and PPP connections. See bridge.log for the adapter involved.");
    assert_eq!(GatewayError::RouteQueryFailed { code: 1232, source: OsError::Other("boom".into()), }.message(), "Could not read the system routing table. See bridge.log for details.");
    assert_eq!(GatewayError::InterfaceNameUnavailable { interface_index: 7, source: OsError::Other("boom".into()), }.message(), "The upstream network adapter could not be identified. See bridge.log for details.");
}

#[test]
fn no_usable_gateway_hides_the_adapter_in_display_and_keeps_it_in_debug() {
    let err = GatewayError::NoUsableGateway {
        detail: sample_detail(),
    };

    let shown = err.message();
    assert!(!shown.contains("ProtonVPN"));
    assert!(!shown.contains("42"));
    assert!(!shown.contains("0.0.0.0"));

    let logged = err.detail();
    assert!(logged.contains("ProtonVPN TUN"));
    assert!(logged.contains("42"));
    assert!(logged.contains("0.0.0.0"));
}

#[test]
fn route_query_failed_hides_the_os_error_in_display_and_keeps_it_in_debug() {
    let err = GatewayError::RouteQueryFailed {
        code: 1214,
        source: OsError::Other(r"C:\Users\alice\AppData\Hole adapter 'Wi-Fi 2'".into()),
    };

    let shown = err.message();
    assert!(!shown.contains("alice"));
    assert!(!shown.contains("Wi-Fi"));
    assert!(!shown.contains("1214"));

    let logged = err.detail();
    assert!(logged.contains("alice"));
    assert!(logged.contains("1214"));

    let source = err.source().expect("RouteQueryFailed carries a source");
    assert!(source.message().contains(r"C:\Users\alice"));
}

#[test]
fn interface_name_unavailable_hides_the_index_in_display_and_keeps_it_in_debug() {
    let err = GatewayError::InterfaceNameUnavailable {
        interface_index: 31337,
        source: OsError::Other("ConvertInterfaceLuidToAlias failed".into()),
    };

    assert!(!err.message().contains("31337"));
    assert!(err.detail().contains("31337"));
    assert!(err.source().is_some());
}

#[test]
fn map_query_error_separates_reachability_from_query_failure() {
    for code in [ERROR_NETWORK_UNREACHABLE, ERROR_HOST_UNREACHABLE, ERROR_NOT_FOUND] {
        assert!(map_query_error(code).is_none());
    }

    for code in [ERROR_INVALID_PARAMETER, ERROR_INVALID_NETNAME, ERROR_ACCESS_DENIED] {
        let mapped = map_query_error(code).unwrap_or_else(|| panic!("{code} must map to an error"));
        assert!(matches!(mapped, GatewayError::RouteQueryFailed { code: c, .. } if c == code));
    }

    let mapped = map_query_error(0xDEAD).expect("an unanticipated code is a query failure");
    assert!(matches!(mapped, GatewayError::RouteQueryFailed { code: 0xDEAD, .. }));
}

fn hop(next_hop: IpAddr) -> RouteHop {
    RouteHop {
        next_hop,
        interface_index: 42,
        interface_alias: "ProtonVPN TUN".into(),
    }
}

#[test]
fn classify_hop_maps_no_route_to_no_default_route() {
    let err = classify_hop(None, false).expect_err("no route must be an error");
    assert!(matches!(err, GatewayError::NoDefaultRoute));
}

#[test]
fn an_on_link_default_classifies_as_on_link_not_an_error() {
    let info = classify_hop(Some(hop(IpAddr::V4(Ipv4Addr::new(0, 0, 0, 0)))), false).expect("on-link must not be refused");
    assert_eq!(info.next_hop, NextHop::OnLink);
}

#[test]
fn an_on_link_ipv6_default_classifies_as_on_link() {
    let info = classify_hop(Some(hop(IpAddr::V6(Ipv6Addr::new(0, 0, 0, 0, 0, 0, 0, 0)))), false).expect("on-link must not be refused");
    assert_eq!(info.next_hop, NextHop::OnLink);
}

#[test]
fn a_gateway_default_still_classifies_as_via() {
    let gateway = IpAddr::V4(Ipv4Addr::new(192, 168, 0, 1));
    let info = classify_hop(Some(hop(gateway)), false).expect("a real next hop is usable");
    assert_eq!(info.next_hop, NextHop::Via(gateway));
}

#[test]
fn a_gateway_ipv6_default_classifies_as_via() {
    let gateway = IpAddr::V6(Ipv6Addr::new(0x2001, 0xdb8, 0, 0, 0, 0, 0, 1));
    let info = classify_hop(Some(hop(gateway)), false).expect("a real next hop is usable");
    assert_eq!(info.next_hop, NextHop::Via(gateway));
}

#[test]
fn classify_hop_maps_empty_alias_to_interface_name_unavailable() {
    let nameless = RouteHop {
        next_hop: IpAddr::V4(Ipv4Addr::new(192, 168, 0, 1)),
        interface_index: 7,
        interface_alias: String::new(),
    };
    let err = classify_hop(Some(nameless), false).expect_err("an unnamed adapter must be refused");
    assert!(matches!(err, GatewayError::InterfaceNameUnavailable { interface_index: 7, .. }));
}

#[test]
fn classify_hop_accepts_a_real_next_hop() {
    let gateway = IpAddr::V4(Ipv4Addr::new(192, 168, 0, 1));
    let info = classify_hop(Some(hop(gateway)), true).expect("a real next hop is usable");
    assert_eq!(info.gateway_ip, gateway);
    assert_eq!(info.next_hop, NextHop::Via(gateway));
    assert_eq!(info.interface_name, "ProtonVPN TUN");
    assert_eq!(info.interface_index, 42);
    assert!(info.ipv6_available);
}

#[test]
fn reject_macos_on_link_refuses_on_link_as_no_default_route() {
    let info = classify_hop(Some(hop(IpAddr::V4(Ipv4Addr::new(0, 0, 0, 0)))), false).unwrap();
    let err = reject_macos_on_link(info).expect_err("macOS must still refuse on-link");
    assert!(matches!(err, GatewayError::NoDefaultRoute));
}

#[test]
fn reject_macos_on_link_passes_a_real_gateway_through_unchanged() {
    let gateway = IpAddr::V4(Ipv4Addr::new(192, 168, 0, 1));
    let info = classify_hop(Some(hop(gateway)), true).unwrap();
    let passed = reject_macos_on_link(info.clone()).expect("a real gateway must not be refused");
    assert_eq!(passed, info);
}

fn ascii(text: &str) -> Vec<u16> {
    text.bytes().map(u16::from).collect()
}

#[test]
fn an_alias_ends_at_the_first_zero() {
    let mut buf = ascii("Wi-Fi");
    buf.push(0);
    buf.extend(ascii("junk"));
    assert_eq!(alias_text(&buf), "Wi-Fi");
    assert_eq!(alias_text(&ascii("unterminated")), "unterminated");
    assert_eq!(alias_text(&Vec::new()), "");
}

#[test]
fn an_alias_is_read_as_utf16_with_broken_pairs_replaced() {
    // A pair, a lone trailing half, a lone leading half, and one at the very end.
    let buf = vec![0xd83d, 0xde00, 0x0041, 0xde00, 0x0042, 0xd83d, 0x0043, 0xd83d];
    assert_eq!(alias_text(&buf), "\u{1f600}A\u{fffd}B\u{fffd}C\u{fffd}");
    assert_eq!(alias_text(&vec![0x00e9, 0x4e2d, 0xffff]), "\u{e9}\u{4e2d}\u{ffff}");
    assert_eq!(alias_text(&vec![0xdbff, 0xdfff]), "\u{10ffff}");
    assert_eq!(alias_text(&vec![0xd800, 0xd800, 0xdc00]), "\u{fffd}\u{10000}");
}

#[test]
fn every_family_but_ipv6_reads_as_ipv4() {
    let mut v6 = [0u8; 16];
    v6[0] = 0x20;
    v6[1] = 0x01;
    v6[15] = 0x05;
    let sa = SockAddr { family: AF_INET6, v4: [1, 2, 3, 4], v6 };
    assert_eq!(
        from_sockaddr_inet(&sa),
        IpAddr::V6(Ipv6Addr::new(0x2001, 0, 0, 0, 0, 0, 0, 5))
    );
    for family in [0, 2] {
        assert_eq!(
            from_sockaddr_inet(&SockAddr { family, ..sa }),
            IpAddr::V4(Ipv4Addr::new(1, 2, 3, 4))
        );
    }
}

fn row(alias_status: u32) -> RouteRow {
    RouteRow {
        interface_index: 12,
        alias_status,
        alias: ascii("Ethernet"),
        next_hop: SockAddr { family: 2, v4: [10, 0, 0, 1], v6: [0; 16] },
    }
}

#[test]
fn a_found_route_is_read_with_its_interface_name() {
    assert_eq!(
        route_hop(&row(0)),
        Ok(RouteHop {
            next_hop: IpAddr::V4(Ipv4Addr::new(10, 0, 0, 1)),
            interface_index: 12,
            interface_alias: "Ethernet".into(),
        })
    );
    assert_eq!(
        route_hop(&row(1168)),
        Err(GatewayError::InterfaceNameUnavailable {
            interface_index: 12,
            source: OsError::Raw(1168),
        })
    );
}

#[test]
fn the_log_form_of_an_error_is_exact() {
    assert_eq!(GatewayError::NoDefaultRoute.detail(), "no default route");
    assert_eq!(
        GatewayError::NoUsableGateway { detail: sample_detail() }.detail(),
        "no usable gateway: adapter ProtonVPN TUN, interface 42, next hop 0.0.0.0"
    );
    assert_eq!(
        GatewayError::RouteQueryFailed { code: 87, source: OsError::Raw(87) }.detail(),
        "route query failed: status 87: os error 87"
    );
    assert_eq!(
        GatewayError::InterfaceNameUnavailable {
            interface_index: 4294967295,
            source: OsError::Raw(-1),
        }
        .detail(),
        "no name for interface 4294967295: os error -1"
    );
    assert_eq!(GatewayError::NoDefaultRoute.source(), None);
}

#[test]
fn a_lookup_has_three_answers() {
    assert!(matches!(best_route(0, &row(0)), Ok(Some(hop)) if hop.interface_alias == "Ethernet"));
    for status in [ERROR_NETWORK_UNREACHABLE, ERROR_HOST_UNREACHABLE, ERROR_NOT_FOUND] {
        assert_eq!(best_route(status, &row(1168)), Ok(None));
    }
    assert_eq!(
        best_route(ERROR_INVALID_PARAMETER, &row(0)),
        Err(GatewayError::RouteQueryFailed {
            code: ERROR_INVALID_PARAMETER,
            source: OsError::Raw(87),
        })
    );
    assert!(matches!(
        best_route(0, &row(5)),
        Err(GatewayError::InterfaceNameUnavailable { interface_index: 12, .. })
    ));
}

#[test]
fn a_socket_address_reads_back() {
    for addr in [
        IpAddr::V4(Ipv4Addr::new(192, 0, 2, 1)),
        IpAddr::V6(Ipv6Addr::new(0xfe80, 0, 0, 0, 1, 2, 3, 0xffff)),
    ] {
        assert_eq!(from_sockaddr_inet(&to_sockaddr_inet(addr)), addr);
    }
    assert_eq!(to_sockaddr_inet(IpAddr::V4(Ipv4Addr::new(1, 2, 3, 4))).family, 2);
}
