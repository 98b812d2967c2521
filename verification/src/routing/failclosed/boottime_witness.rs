//! The record on disk of boot-time keys having been installed.
//!
//! A sweep that removes the persistent sibling also removes the only live
//! evidence that boot-time keys were installed beside it. The record outlives
//! that removal.

use vstd::prelude::*;
use crate::routing::failclosed::clearance::ArmingWitness;
use crate::routing::state_file::Stored;

verus! {

pub const SCHEMA_VERSION: u32 = 1;

pub const STATE_FILE_NAME: &'static str = "bridge-boottime.json";

/// The record.
#[derive(Debug, Clone, Copy, PartialEq, Eq, Structural)]
pub struct BootTimeState {
    pub version: u32,
    pub armed: bool,
}

/// What the file says. A file that cannot be understood is unreadable, not unset.
pub open spec fn witness_of(stored: Stored<BootTimeState>) -> ArmingWitness {
    match stored {
        Stored::Missing => ArmingWitness::Unset,
        Stored::ReadFailed | Stored::Malformed => ArmingWitness::Unreadable,
        Stored::Parsed(s) => if s.version != SCHEMA_VERSION {
            ArmingWitness::Unreadable
        } else if s.armed {
            ArmingWitness::Armed
        } else {
            ArmingWitness::Disarmed
        },
    }
}

/// Read the record.
pub fn load(stored: Stored<BootTimeState>) -> (r: ArmingWitness)
    ensures
        r == witness_of(stored),
{
    match stored {
        Stored::Missing => ArmingWitness::Unset,
        Stored::ReadFailed => ArmingWitness::Unreadable,
        Stored::Malformed => ArmingWitness::Unreadable,
        Stored::Parsed(s) => {
            if s.version != SCHEMA_VERSION {
                ArmingWitness::Unreadable
            } else if s.armed {
                ArmingWitness::Armed
            } else {
                ArmingWitness::Disarmed
            }
        }
    }
}

/// The record to write for a flag.
pub fn record(armed: bool) -> (r: BootTimeState)
    ensures
        r == (BootTimeState { version: SCHEMA_VERSION, armed }),
{
    BootTimeState { version: SCHEMA_VERSION, armed }
}

/// The record to write when boot-time keys have just been installed.
pub fn record_armed() -> (r: BootTimeState)
    ensures
        r == (BootTimeState { version: SCHEMA_VERSION, armed: true }),
{
    record(true)
}

/// The record of a host on which boot-time keys were installed.
pub fn record_armed_for_test() -> (r: BootTimeState)
    ensures
        r == (BootTimeState { version: SCHEMA_VERSION, armed: true }),
{
    record_armed()
}

/// What a sweep tells the record.
#[derive(Debug, Clone, Copy, PartialEq, Eq, Structural)]
pub enum WitnessUpdate {
    Arm,
    Disarm,
    Leave,
}

/// The flag to write for an update, `None` where the record stays as it is. A host
/// that never had a record gets none that says so.
pub open spec fn record_to_write(current: ArmingWitness, update: WitnessUpdate) -> Option<bool> {
    match update {
        WitnessUpdate::Leave => None,
        WitnessUpdate::Arm => if current is Armed {
            None
        } else {
            Some(true)
        },
        WitnessUpdate::Disarm => if current.possible() {
            Some(false)
        } else {
            None
        },
    }
}

/// The flag to write for an update.
pub fn next_record(current: ArmingWitness, update: WitnessUpdate) -> (r: Option<bool>)
    ensures
        r == record_to_write(current, update),
{
    match update {
        WitnessUpdate::Leave => None,
        WitnessUpdate::Arm => if current == ArmingWitness::Armed {
            None
        } else {
            Some(true)
        },
        WitnessUpdate::Disarm => if current == ArmingWitness::Disarmed || current == ArmingWitness::Unset {
            None
        } else {
            Some(false)
        },
    }
}

/// The record after an update, where a write that was due has succeeded.
pub open spec fn witness_after(current: ArmingWitness, update: WitnessUpdate) -> ArmingWitness {
    match record_to_write(current, update) {
        None => current,
        Some(armed) => witness_of(Stored::Parsed(BootTimeState { version: SCHEMA_VERSION, armed })),
    }
}

} // verus!
