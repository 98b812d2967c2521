//! The tunnel interface's metric, the lowest there is, so that its resolver is
//! preferred over the physical adapter's.
//!
//! That an interface has no row for an address family yet is an outcome the caller
//! gets, not an error and not a warning.

use vstd::prelude::*;
use crate::gateway::{OsError, ERROR_NOT_FOUND, NO_ERROR};

verus! {

/// The metric the tunnel asks for: the minimum.
pub const TUNNEL_INTERFACE_METRIC: u32 = 1;

/// An address family.
#[derive(Debug, Clone, Copy, PartialEq, Eq, Structural)]
pub enum Family {
    V4,
    V6,
}

/// What setting a metric came to.
#[derive(Debug, Clone, Copy, PartialEq, Eq, Structural)]
pub enum MetricOutcome {
    Applied,
    /// The interface has no row for the family.
    NoInterfaceRow,
}

pub open spec fn metric_outcome(status: u32) -> Result<MetricOutcome, OsError> {
    if status == NO_ERROR {
        Ok(MetricOutcome::Applied)
    } else if status == ERROR_NOT_FOUND {
        Ok(MetricOutcome::NoInterfaceRow)
    } else {
        Err(OsError::Raw(status as i32))
    }
}

/// The outcome that a status stands for. Every status but success and "not found" is
/// an error.
pub fn classify_metric_status(status: u32) -> (r: Result<MetricOutcome, OsError>)
    ensures
        r == metric_outcome(status),
{
    if status == NO_ERROR {
        return Ok(MetricOutcome::Applied);
    }
    if status == ERROR_NOT_FOUND {
        return Ok(MetricOutcome::NoInterfaceRow);
    }
    Err(OsError::Raw(status as i32))
}

/// The fields of an interface row that setting a metric changes.
#[derive(Debug, Clone, Copy, PartialEq, Eq, Structural)]
pub struct MetricRow {
    /// Must be zero in a row that is written.
    pub site_prefix_length: u32,
    pub metric: u32,
    pub use_automatic_metric: bool,
}

/// How setting a metric goes on once the row was read.
#[derive(Debug, PartialEq, Eq)]
pub enum MetricStep {
    /// Write the row with these fields, and all others as read.
    Write(MetricRow),
    Done(Result<MetricOutcome, OsError>),
}

/// Set the metric of the row that was read with `read_status`. Nothing is written
/// unless the row was read.
pub fn set_interface_metric(read_status: u32, metric: u32) -> (r: MetricStep)
    ensures
        r == match metric_outcome(read_status) {
            Ok(MetricOutcome::Applied) => MetricStep::Write(
                MetricRow { site_prefix_length: 0, metric, use_automatic_metric: false },
            ),
            other => MetricStep::Done(other),
        },
{
    match classify_metric_status(read_status) {
        Ok(MetricOutcome::Applied) => MetricStep::Write(
            MetricRow { site_prefix_length: 0, metric, use_automatic_metric: false },
        ),
        Ok(MetricOutcome::NoInterfaceRow) => MetricStep::Done(Ok(MetricOutcome::NoInterfaceRow)),
        Err(e) => MetricStep::Done(Err(e)),
    }
}

} // verus!
