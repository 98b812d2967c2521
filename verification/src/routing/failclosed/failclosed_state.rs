//! The record of an engaged transient cover.

use vstd::prelude::*;
use crate::routing::state_file::{removal_outcome, tolerate_absence, RemoveFailure, StateFile, Stored};

verus! {

pub const SCHEMA_VERSION: u32 = 1;

pub const STATE_FILE_NAME: &'static str = "bridge-failclosed.json";

/// A transient cover that was engaged and not yet released.
#[derive(Debug, Clone, PartialEq, Eq)]
pub struct FailClosedState {
    pub version: u32,
    /// The token of the firewall's enable reference.
    pub pf_token: String,
    /// Whether the firewall was enabled before, `None` where that could not be
    /// read.
    pub pf_was_enabled: Option<bool>,
}

/// [`FailClosedState`] with its token as characters.
pub struct FailClosedStateView {
    pub version: u32,
    pub pf_token: Seq<char>,
    pub pf_was_enabled: Option<bool>,
}

impl View for FailClosedState {
    type V = FailClosedStateView;

    open spec fn view(&self) -> FailClosedStateView {
        FailClosedStateView {
            version: self.version,
            pf_token: self.pf_token@,
            pf_was_enabled: self.pf_was_enabled,
        }
    }
}

/// What the file says of a transient cover. A file that is there and cannot be
/// understood is [`StateFile::Unusable`], never an absence.
pub open spec fn presence(stored: Stored<FailClosedState>) -> StateFile<FailClosedState> {
    match stored {
        Stored::Missing => StateFile::Absent,
        Stored::Parsed(s) => if s.version == SCHEMA_VERSION {
            StateFile::Present(s)
        } else {
            StateFile::Unusable
        },
        Stored::ReadFailed | Stored::Malformed => StateFile::Unusable,
    }
}

/// Tell an absent file, an unusable one and a usable record apart.
pub fn load_presence(stored: Stored<FailClosedState>) -> (r: StateFile<FailClosedState>)
    ensures
        r == presence(stored),
{
    match stored {
        Stored::Missing => StateFile::Absent,
        Stored::Parsed(s) => {
            if s.version == SCHEMA_VERSION {
                StateFile::Present(s)
            } else {
                StateFile::Unusable
            }
        }
        Stored::ReadFailed => StateFile::Unusable,
        Stored::Malformed => StateFile::Unusable,
    }
}

/// The record, where the file holds a usable one.
pub fn load(stored: Stored<FailClosedState>) -> (r: Option<FailClosedState>)
    ensures
        r == match presence(stored) {
            StateFile::Present(s) => Some(s),
            _ => None,
        },
{
    match load_presence(stored) {
        StateFile::Present(s) => Some(s),
        _ => None,
    }
}

/// The outcome of clearing the file. That it was not there is no failure.
pub fn clear(removed: Result<(), RemoveFailure>) -> (r: Result<(), String>)
    ensures
        r == removal_outcome(removed),
{
    tolerate_absence(removed)
}

} // verus!
