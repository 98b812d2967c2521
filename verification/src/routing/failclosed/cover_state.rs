//! Whether a cover is in force, as a probe answers it.

use vstd::prelude::*;
use crate::error::{RoutingError, RoutingErrorView};

verus! {

/// A probe's answer.
#[derive(Debug, Clone, Copy, PartialEq, Eq, Structural)]
pub enum CoverState {
    Engaged,
    Absent,
    /// The probe could not answer.
    Unknown,
}

impl CoverState {
    /// Whether a cover has to be reckoned with. Only a confirmed absence rules it
    /// out.
    pub fn is_present(self) -> (r: bool)
        ensures
            r == !(self is Absent),
    {
        match self {
            CoverState::Engaged | CoverState::Unknown => true,
            CoverState::Absent => false,
        }
    }
}

/// Whether a disengage may be reported as done: only over a confirmed absence.
pub fn verify_disengaged(state: CoverState) -> (r: Result<(), RoutingError>)
    ensures
        match state {
            CoverState::Absent => r is Ok,
            CoverState::Engaged => r matches Err(e) && e@ == RoutingErrorView::RouteSetup(
                "the cover is still engaged"@,
            ),
            CoverState::Unknown => r matches Err(e) && e@ == RoutingErrorView::RouteSetup(
                "it is not known whether the cover is still engaged"@,
            ),
        },
{
    match state {
        CoverState::Absent => Ok(()),
        CoverState::Engaged => Err(RoutingError::RouteSetup("the cover is still engaged".to_owned())),
        CoverState::Unknown => Err(
            RoutingError::RouteSetup("it is not known whether the cover is still engaged".to_owned()),
        ),
    }
}

} // verus!
