//! The user's kill-switch intent, as recorded on disk.

use vstd::prelude::*;
use crate::routing::state_file::{removal_outcome, tolerate_absence, RemoveFailure, Stored};

verus! {

pub const SCHEMA_VERSION: u32 = 1;

pub const STATE_FILE_NAME: &'static str = "bridge-lockdown.json";

/// The recorded intent.
#[derive(Debug, Clone, Copy, PartialEq, Eq, Structural)]
pub struct LockdownState {
    pub version: u32,
    pub enabled: bool,
}

/// The intent, with what is not known of it told apart.
#[derive(Debug, Clone, Copy, PartialEq, Eq, Structural)]
pub enum Intent {
    /// Recorded as on.
    On,
    /// Recorded as off.
    Off,
    /// Never recorded.
    Unset,
    /// Recorded, but the record cannot be read.
    Unreadable,
}

impl Intent {
    /// The intent as far as an escape from a block is concerned: an unreadable
    /// record is no consent to disarm.
    pub open spec fn armed(self) -> bool {
        self is On || self is Unreadable
    }

    /// The intent reads as armed.
    pub fn reads_armed(self) -> (r: bool)
        ensures
            r == self.armed(),
    {
        match self {
            Intent::On | Intent::Unreadable => true,
            Intent::Off | Intent::Unset => false,
        }
    }

    /// The intent authorises the standing cover: an explicit on alone.
    pub fn installs_standing_cover(self) -> (r: bool)
        ensures
            r == (self is On),
    {
        match self {
            Intent::On => true,
            Intent::Off | Intent::Unset | Intent::Unreadable => false,
        }
    }
}

/// The two readings of an intent differ on an unreadable record and nowhere else.
pub proof fn intent_readings_differ_only_on_unreadable(intent: Intent)
    ensures
        (intent.armed() != (intent is On)) <==> intent is Unreadable,
{
}

/// The intent that the file stands for.
pub open spec fn intent_of(stored: Stored<LockdownState>) -> Intent {
    match stored {
        Stored::Missing => Intent::Unset,
        Stored::ReadFailed | Stored::Malformed => Intent::Unreadable,
        Stored::Parsed(s) => if s.version != SCHEMA_VERSION {
            Intent::Unreadable
        } else if s.enabled {
            Intent::On
        } else {
            Intent::Off
        },
    }
}

/// The usable record, or the intent that the lack of one stands for.
pub fn read_state(stored: Stored<LockdownState>) -> (r: Result<LockdownState, Intent>)
    ensures
        r == match stored {
            Stored::Parsed(s) if s.version == SCHEMA_VERSION => Ok::<LockdownState, Intent>(s),
            _ => Err(intent_of(stored)),
        },
{
    match stored {
        Stored::Missing => Err(Intent::Unset),
        Stored::ReadFailed => Err(Intent::Unreadable),
        Stored::Malformed => Err(Intent::Unreadable),
        Stored::Parsed(s) => {
            if s.version == SCHEMA_VERSION {
                Ok(s)
            } else {
                Err(Intent::Unreadable)
            }
        }
    }
}

/// The usable record.
pub fn load(stored: Stored<LockdownState>) -> (r: Option<LockdownState>)
    ensures
        r == match stored {
            Stored::Parsed(s) if s.version == SCHEMA_VERSION => Some(s),
            _ => None,
        },
{
    match read_state(stored) {
        Ok(s) => Some(s),
        Err(_) => None,
    }
}

/// The recorded intent.
pub fn load_intent(stored: Stored<LockdownState>) -> (r: Intent)
    ensures
        r == intent_of(stored),
{
    match read_state(stored) {
        Ok(s) => if s.enabled {
            Intent::On
        } else {
            Intent::Off
        },
        Err(intent) => intent,
    }
}

/// Whether the recorded intent reads as armed.
pub fn load_enabled(stored: Stored<LockdownState>) -> (r: bool)
    ensures
        r == intent_of(stored).armed(),
{
    load_intent(stored).reads_armed()
}

/// The record that sets the intent.
pub fn set_enabled(enabled: bool) -> (r: LockdownState)
    ensures
        r == (LockdownState { version: SCHEMA_VERSION, enabled }),
{
    LockdownState { version: SCHEMA_VERSION, enabled }
}

/// The outcome of clearing the file. That it was not there is no failure.
pub fn clear(removed: Result<(), RemoveFailure>) -> (r: Result<(), String>)
    ensures
        r == removal_outcome(removed),
{
    tolerate_absence(removed)
}

/// An intent that was set reads back as it was set.
pub proof fn set_intent_reads_back(enabled: bool)
    ensures
        intent_of(Stored::Parsed(LockdownState { version: SCHEMA_VERSION, enabled })) == if enabled {
            Intent::On
        } else {
            Intent::Off
        },
{
}

/// Only a file that is not there reads as never recorded: a file that cannot be
/// understood never passes for an intent that is off or unset.
pub proof fn a_file_never_reads_as_unset(stored: Stored<LockdownState>)
    requires
        !(stored is Missing),
    ensures
        intent_of(stored) != Intent::Unset,
        stored is ReadFailed || stored is Malformed ==> intent_of(stored).armed(),
{
}

/// The intent is what the record says where it parses with the version that is
/// written; a file that is there and does not is unreadable, and reads as armed.
pub proof fn an_intent_is_what_its_record_says(stored: Stored<LockdownState>)
    ensures
        match stored {
            Stored::Missing => intent_of(stored) == Intent::Unset && !intent_of(stored).armed(),
            Stored::Parsed(s) if s.version == 1 => intent_of(stored) == (if s.enabled {
                Intent::On
            } else {
                Intent::Off
            }) && intent_of(stored).armed() == s.enabled,
            _ => intent_of(stored) == Intent::Unreadable && intent_of(stored).armed(),
        },
{
}

} // verus!
