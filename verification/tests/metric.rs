//! Interface metrics and the option that binds a socket to an interface.

use tun_engine::gateway::{OsError, ERROR_NOT_FOUND, NO_ERROR};
use tun_engine::net::{interface_option, InterfaceOption};
use tun_engine::net::metric::{
    classify_metric_status, set_interface_metric, Family, MetricOutcome, MetricRow, MetricStep,
    TUNNEL_INTERFACE_METRIC,
};
use tun_engine::routing::commands::Platform;

#[test]
fn absent_interface_row_is_an_outcome_not_an_error() {
    let result = classify_metric_status(ERROR_NOT_FOUND);
    assert!(matches!(result, Ok(MetricOutcome::NoInterfaceRow)));
}

#[test]
fn other_errors_propagate() {
    let result = classify_metric_status(5);
    assert!(result.is_err());
}

#[test]
fn success_status_applies() {
    let result = classify_metric_status(NO_ERROR);
    assert!(matches!(result, Ok(MetricOutcome::Applied)));
}

#[test]
fn tunnel_metric_is_the_minimum() {
    assert_eq!(TUNNEL_INTERFACE_METRIC, 1);
}

#[test]
fn a_row_is_written_only_after_it_was_read() {
    assert_eq!(
        set_interface_metric(NO_ERROR, TUNNEL_INTERFACE_METRIC),
        MetricStep::Write(MetricRow {
            site_prefix_length: 0,
            metric: 1,
            use_automatic_metric: false,
        })
    );
    assert_eq!(
        set_interface_metric(ERROR_NOT_FOUND, 1),
        MetricStep::Done(Ok(MetricOutcome::NoInterfaceRow))
    );
    assert_eq!(set_interface_metric(5, 1), MetricStep::Done(Err(OsError::Raw(5))));
}

#[test]
fn windows_takes_the_ipv4_index_in_network_order() {
    assert_eq!(
        interface_option(Platform::Windows, Family::V4, 0x0102_0304),
        InterfaceOption::NetworkOrder([1, 2, 3, 4])
    );
    for (platform, family) in [
        (Platform::Windows, Family::V6),
        (Platform::MacOs, Family::V4),
        (Platform::MacOs, Family::V6),
    ] {
        assert_eq!(
            interface_option(platform, family, 0x0102_0304),
            InterfaceOption::HostOrder(0x0102_0304)
        );
    }
}
