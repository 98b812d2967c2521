//! The record of an engaged standing lockdown, with the firewall rules it
//! replaced.

use vstd::prelude::*;
use crate::routing::state_file::{removal_outcome, tolerate_absence, RemoveFailure, StateFile, Stored};

verus! {

pub const SCHEMA_VERSION: u32 = 1;

pub const STATE_FILE_NAME: &'static str = "bridge-lockdown-pf.json";

/// A standing lockdown that was engaged and not yet released.
#[derive(Debug, Clone, PartialEq, Eq)]
pub struct LockdownPfState {
    pub version: u32,
    /// The token of the firewall's enable reference.
    pub pf_token: String,
    /// The filter rules that were loaded before.
    pub main_snapshot: String,
    /// The translation rules that were loaded before.
    pub nat_snapshot: String,
    /// Whether `main_snapshot` is the host's own policy. An empty snapshot can
    /// be: a host may have no filter rules.
    pub main_snapshot_captured: bool,
}

/// [`LockdownPfState`] with its text as characters.
pub struct LockdownPfStateView {
    pub version: u32,
    pub pf_token: Seq<char>,
    pub main_snapshot: Seq<char>,
    pub nat_snapshot: Seq<char>,
    pub main_snapshot_captured: bool,
}

impl View for LockdownPfState {
    type V = LockdownPfStateView;

    open spec fn view(&self) -> LockdownPfStateView {
        LockdownPfStateView {
            version: self.version,
            pf_token: self.pf_token@,
            main_snapshot: self.main_snapshot@,
            nat_snapshot: self.nat_snapshot@,
            main_snapshot_captured: self.main_snapshot_captured,
        }
    }
}

/// The record as the file holds it. Files from before `main_snapshot_captured`
/// existed lack it.
#[derive(Debug, Clone, PartialEq, Eq)]
pub struct LockdownPfRecord {
    pub version: u32,
    pub pf_token: String,
    pub main_snapshot: String,
    pub nat_snapshot: String,
    pub main_snapshot_captured: Option<bool>,
}

impl LockdownPfRecord {
    /// The state the record stands for. Without the flag it was written when every
    /// snapshot was a captured one.
    pub open spec fn state(self) -> LockdownPfState {
        LockdownPfState {
            version: self.version,
            pf_token: self.pf_token,
            main_snapshot: self.main_snapshot,
            nat_snapshot: self.nat_snapshot,
            main_snapshot_captured: match self.main_snapshot_captured {
                Some(captured) => captured,
                None => true,
            },
        }
    }
}

/// What the file says of a standing lockdown. A file that is there and cannot be
/// understood is [`StateFile::Unusable`], never an absence.
pub open spec fn presence(stored: Stored<LockdownPfRecord>) -> StateFile<LockdownPfState> {
    match stored {
        Stored::Missing => StateFile::Absent,
        Stored::Parsed(s) => if s.version == SCHEMA_VERSION {
            StateFile::Present(s.state())
        } else {
            StateFile::Unusable
        },
        Stored::ReadFailed | Stored::Malformed => StateFile::Unusable,
    }
}

/// The record to write for a state.
pub fn save(state: LockdownPfState) -> (r: LockdownPfRecord)
    ensures
        r.state() == state,
        r.main_snapshot_captured is Some,
{
    LockdownPfRecord {
        version: state.version,
        pf_token: state.pf_token,
        main_snapshot: state.main_snapshot,
        nat_snapshot: state.nat_snapshot,
        main_snapshot_captured: Some(state.main_snapshot_captured),
    }
}

/// Tell an absent file, an unusable one and a usable record apart.
pub fn load_presence(stored: Stored<LockdownPfRecord>) -> (r: StateFile<LockdownPfState>)
    ensures
        r == presence(stored),
{
    match stored {
        Stored::Missing => StateFile::Absent,
        Stored::Parsed(s) => {
            if s.version != SCHEMA_VERSION {
                return StateFile::Unusable;
            }
            let captured = match s.main_snapshot_captured {
                Some(captured) => captured,
                None => true,
            };
            StateFile::Present(
                LockdownPfState {
                    version: s.version,
                    pf_token: s.pf_token,
                    main_snapshot: s.main_snapshot,
                    nat_snapshot: s.nat_snapshot,
                    main_snapshot_captured: captured,
                },
            )
        }
        Stored::ReadFailed => StateFile::Unusable,
        Stored::Malformed => StateFile::Unusable,
    }
}

/// The record, where the file holds a usable one.
pub fn load(stored: Stored<LockdownPfRecord>) -> (r: Option<LockdownPfState>)
    ensures
        r == match presence(stored) {
            StateFile::Present(s) => Some(s),
            _ => None,
        },
{
    match load_presence(stored) {
        StateFile::Present(s) => Some(s),
        _ => None,
    }
}

/// The outcome of clearing the file. That it was not there is no failure.
pub fn clear(removed: Result<(), RemoveFailure>) -> (r: Result<(), String>)
    ensures
        r == removal_outcome(removed),
{
    tolerate_absence(removed)
}

/// A state of the current schema version reads back as it was saved.
pub proof fn saved_state_reads_back(state: LockdownPfState, record: LockdownPfRecord)
    requires
        state.version == SCHEMA_VERSION,
        record.state() == state,
    ensures
        presence(Stored::Parsed(record)) == StateFile::Present(state),
{
}

} // verus!
