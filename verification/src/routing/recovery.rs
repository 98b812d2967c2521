//! What a start does about a standing lockdown that an earlier run may have left.

use vstd::prelude::*;
use crate::routing::failclosed::lockdown_state::Intent;

verus! {

/// What recovery does with a standing cover.
#[derive(Debug, Clone, Copy, PartialEq, Eq, Structural)]
pub enum CoverRecovery {
    /// Keep it: the host stays blocked until the next connect takes the cover over.
    Adopt,
    /// Remove it. The one action that takes protection away.
    Sweep,
    /// Nothing.
    Noop,
}

/// What is known of a standing cover.
#[derive(Debug, Clone, Copy, PartialEq, Eq, Structural)]
pub enum CoverPresence {
    /// The system confirmed it, or a residue of it.
    Live,
    /// The system did not confirm one, but a record says one was engaged and never
    /// confirmed released.
    Recorded,
    /// The system said no, and no record contradicts it.
    Absent,
    /// The system answered, but its answer cannot be used.
    Indeterminate,
    /// The system could not be asked.
    Unreachable,
}

impl CoverPresence {
    /// The presence is something to act on.
    pub open spec fn actionable(self) -> bool {
        self is Live || self is Recorded || self is Indeterminate
    }
}

/// A recovery decision.
#[derive(Debug, Clone, Copy, PartialEq, Eq, Structural)]
pub struct Recovery {
    pub action: CoverRecovery,
    /// Set the recorded intent to on before acting.
    pub record_intent_on: bool,
    /// The presence that the decision was made from. An adoption alone is no
    /// evidence that the system confirmed a live cover.
    pub presence: CoverPresence,
}

/// The decision for a recorded intent and a measured presence.
pub open spec fn decided(intent: Intent, presence: CoverPresence) -> Recovery {
    let action = if !presence.actionable() {
        CoverRecovery::Noop
    } else {
        match intent {
            Intent::Off => CoverRecovery::Sweep,
            Intent::On | Intent::Unreadable => CoverRecovery::Adopt,
            Intent::Unset => if presence is Indeterminate {
                CoverRecovery::Noop
            } else {
                CoverRecovery::Adopt
            },
        }
    };
    Recovery {
        action,
        record_intent_on: presence is Live && (intent is Unset || intent is Unreadable),
        presence,
    }
}

/// Decide what to do with a standing cover.
pub fn decide_cover_recovery(intent: Intent, presence: CoverPresence) -> (r: Recovery)
    ensures
        r == decided(intent, presence),
{
    let (action, record_intent_on) = match (intent, presence) {
        (Intent::On, CoverPresence::Live) => (CoverRecovery::Adopt, false),
        (Intent::On, CoverPresence::Recorded) => (CoverRecovery::Adopt, false),
        (Intent::On, CoverPresence::Indeterminate) => (CoverRecovery::Adopt, false),
        (Intent::On, CoverPresence::Absent) => (CoverRecovery::Noop, false),
        (Intent::On, CoverPresence::Unreachable) => (CoverRecovery::Noop, false),
        (Intent::Off, CoverPresence::Live) => (CoverRecovery::Sweep, false),
        (Intent::Off, CoverPresence::Recorded) => (CoverRecovery::Sweep, false),
        (Intent::Off, CoverPresence::Indeterminate) => (CoverRecovery::Sweep, false),
        (Intent::Off, CoverPresence::Absent) => (CoverRecovery::Noop, false),
        (Intent::Off, CoverPresence::Unreachable) => (CoverRecovery::Noop, false),
        (Intent::Unset, CoverPresence::Live) => (CoverRecovery::Adopt, true),
        (Intent::Unset, CoverPresence::Recorded) => (CoverRecovery::Adopt, false),
        (Intent::Unset, CoverPresence::Indeterminate) => (CoverRecovery::Noop, false),
        (Intent::Unset, CoverPresence::Absent) => (CoverRecovery::Noop, false),
        (Intent::Unset, CoverPresence::Unreachable) => (CoverRecovery::Noop, false),
        (Intent::Unreadable, CoverPresence::Live) => (CoverRecovery::Adopt, true),
        (Intent::Unreadable, CoverPresence::Recorded) => (CoverRecovery::Adopt, false),
        (Intent::Unreadable, CoverPresence::Indeterminate) => (CoverRecovery::Adopt, false),
        (Intent::Unreadable, CoverPresence::Absent) => (CoverRecovery::Noop, false),
        (Intent::Unreadable, CoverPresence::Unreachable) => (CoverRecovery::Noop, false),
    };
    Recovery { action, record_intent_on, presence }
}

/// An absent cover, or a system that could not be asked, is never acted on and
/// never written down.
pub proof fn nothing_present_means_nothing_done(intent: Intent, presence: CoverPresence)
    requires
        presence is Absent || presence is Unreachable,
    ensures
        decided(intent, presence).action is Noop,
        !decided(intent, presence).record_intent_on,
{
}

/// Protection is taken away exactly on an explicit off with something to remove.
pub proof fn sweep_needs_an_explicit_off(intent: Intent, presence: CoverPresence)
    ensures
        decided(intent, presence).action is Sweep <==> intent is Off && presence.actionable(),
{
}

/// A cover is kept exactly where something is present and the intent does not say
/// off; an intent that was never recorded needs positive evidence too.
pub proof fn adopt_needs_a_presence_and_no_off(intent: Intent, presence: CoverPresence)
    ensures
        decided(intent, presence).action is Adopt <==> {
            ||| presence.actionable() && (intent is On || intent is Unreadable)
            ||| intent is Unset && (presence is Live || presence is Recorded)
        },
{
}

/// The intent is repaired exactly on a positive measurement over an intent that is
/// not known.
pub proof fn intent_is_repaired_only_on_a_measurement(intent: Intent, presence: CoverPresence)
    ensures
        decided(intent, presence).record_intent_on <==> presence is Live && (intent is Unset || intent is Unreadable),
        decided(intent, presence).presence == presence,
{
}

/// Every decision at a glance: off removes what may be there; on and unreadable keep
/// what may be there; an intent that was never recorded keeps only what is known to be
/// there; and what is not there, or could not be asked, is left.
pub proof fn what_each_intent_does_with_each_presence(intent: Intent, presence: CoverPresence)
    ensures
        decided(intent, presence).action == match presence {
            CoverPresence::Absent => CoverRecovery::Noop,
            CoverPresence::Unreachable => CoverRecovery::Noop,
            CoverPresence::Live => if intent == Intent::Off {
                CoverRecovery::Sweep
            } else {
                CoverRecovery::Adopt
            },
            CoverPresence::Recorded => if intent == Intent::Off {
                CoverRecovery::Sweep
            } else {
                CoverRecovery::Adopt
            },
            CoverPresence::Indeterminate => match intent {
                Intent::Off => CoverRecovery::Sweep,
                Intent::Unset => CoverRecovery::Noop,
                Intent::On => CoverRecovery::Adopt,
                Intent::Unreadable => CoverRecovery::Adopt,
            },
        },
{
}

} // verus!
