//! What a cover release proved, as distinct from what it attempted.
//!
//! A sweep deletes every key a cover could have been installed under and sees one
//! outcome per key. A boot-time key answers "not found" on every boot on which
//! its object is not live, so for it that answer proves nothing. Two sources say
//! whether such a record is possible at all: the persistent sibling that is
//! installed together with it, and the record kept on disk.

use vstd::prelude::*;
use crate::error::RoutingError;
use crate::routing::failclosed::boottime_witness::{next_record, record_to_write, WitnessUpdate};

verus! {

/// How long a key's object lives.
#[derive(Debug, Clone, Copy, PartialEq, Eq, Structural)]
pub enum KeyLifetime {
    /// Until it is deleted.
    Persistent,
    /// From kernel start until the filtering service starts, on each boot.
    BootTime,
}

/// What deleting a key came to.
#[derive(Debug, Clone, Copy, PartialEq, Eq, Structural)]
pub enum KeyOutcome {
    /// An object was there and is gone.
    Removed,
    /// No object was there.
    NotFound,
    /// Neither can be said.
    Failed,
}

/// What a key's outcome speaks for.
#[derive(Debug, Clone, Copy, PartialEq, Eq, Structural)]
pub enum KeyRole {
    /// Itself alone.
    Plain,
    /// Also whether boot-time keys can have been installed: it is the persistent
    /// half of the rule they copy.
    BootTimeSibling,
}

/// One key of a sweep and what was seen of it.
#[derive(Debug, Clone, Copy, PartialEq, Eq)]
pub struct KeyObservation {
    /// The key's name for an operator.
    pub key: &'static str,
    pub lifetime: KeyLifetime,
    pub outcome: KeyOutcome,
    pub role: KeyRole,
}

impl KeyObservation {
    /// The outcome is proof that the key holds nothing. For a boot-time key only a
    /// removal is.
    pub open spec fn empty(self) -> bool {
        match self.outcome {
            KeyOutcome::Removed => true,
            KeyOutcome::NotFound => self.lifetime is Persistent,
            KeyOutcome::Failed => false,
        }
    }

    pub open spec fn is_sibling(self) -> bool {
        self.role is BootTimeSibling
    }

    /// Whether the outcome proves the key empty.
    pub fn proves_empty(&self) -> (r: bool)
        ensures
            r == self.empty(),
    {
        match (self.lifetime, self.outcome) {
            (KeyLifetime::Persistent, KeyOutcome::Removed) => true,
            (KeyLifetime::Persistent, KeyOutcome::NotFound) => true,
            (KeyLifetime::BootTime, KeyOutcome::Removed) => true,
            (KeyLifetime::BootTime, KeyOutcome::NotFound) => false,
            (_, KeyOutcome::Failed) => false,
        }
    }
}

/// What the record on disk says about boot-time keys having been installed.
#[derive(Debug, Clone, Copy, PartialEq, Eq, Structural)]
pub enum ArmingWitness {
    Armed,
    Disarmed,
    /// No record.
    Unset,
    /// A record that cannot be read.
    Unreadable,
}

impl ArmingWitness {
    /// The record leaves room for a leftover.
    pub open spec fn possible(self) -> bool {
        self is Armed || self is Unreadable
    }

    /// The more cautious of two records.
    pub open spec fn joined(self, other: Self) -> Self {
        if self.possible() {
            self
        } else {
            other
        }
    }

    /// Whether the record leaves room for a leftover.
    pub fn record_possible(self) -> (r: bool)
        ensures
            r == self.possible(),
    {
        match self {
            ArmingWitness::Armed | ArmingWitness::Unreadable => true,
            ArmingWitness::Disarmed | ArmingWitness::Unset => false,
        }
    }

    /// This record where it leaves room for a leftover, else the other.
    pub fn or(self, other: Self) -> (r: Self)
        ensures
            r == self.joined(other),
    {
        if self.record_possible() {
            self
        } else {
            other
        }
    }
}

/// What a sweep saw of boot-time keys.
#[derive(Debug, Clone, Copy, PartialEq, Eq, Structural)]
pub enum BootTimeSightings {
    /// It had none.
    Unseen,
    /// Each of them was proven empty.
    AllProven,
    /// At least one was not.
    SomeUnproven,
}

/// What a sweep's siblings say about a standing cover.
#[derive(Debug, Clone, Copy, PartialEq, Eq, Structural)]
pub enum SiblingEvidence {
    /// One was installed: the sweep removed it.
    Installed,
    /// None was: each answered "not found".
    Absent,
    /// Nothing is ruled out.
    Unknown,
}

impl SiblingEvidence {
    /// The evidence leaves room for a leftover.
    pub open spec fn possible(self) -> bool {
        !(self is Absent)
    }

    /// Whether the evidence leaves room for a leftover.
    pub fn record_possible(self) -> (r: bool)
        ensures
            r == self.possible(),
    {
        match self {
            SiblingEvidence::Installed | SiblingEvidence::Unknown => true,
            SiblingEvidence::Absent => false,
        }
    }
}

pub open spec fn has_sibling(obs: Seq<KeyObservation>) -> bool {
    exists|i: int| 0 <= i < obs.len() && (#[trigger] obs[i]).is_sibling()
}

pub open spec fn has_removed_sibling(obs: Seq<KeyObservation>) -> bool {
    exists|i: int| 0 <= i < obs.len() && (#[trigger] obs[i]).is_sibling() && obs[i].outcome is Removed
}

pub open spec fn siblings_all_not_found(obs: Seq<KeyObservation>) -> bool {
    forall|i: int| 0 <= i < obs.len() && (#[trigger] obs[i]).is_sibling() ==> obs[i].outcome is NotFound
}

/// One removed sibling outweighs any other answer; only siblings that all
/// answered "not found", at least one of them, rule a cover out.
pub open spec fn evidence_of(obs: Seq<KeyObservation>) -> SiblingEvidence {
    if has_removed_sibling(obs) {
        SiblingEvidence::Installed
    } else if has_sibling(obs) && siblings_all_not_found(obs) {
        SiblingEvidence::Absent
    } else {
        SiblingEvidence::Unknown
    }
}

/// What a sweep's siblings say about a standing cover.
pub fn sibling_evidence(observations: &[KeyObservation]) -> (r: SiblingEvidence)
    ensures
        r == evidence_of(observations@),
{
    let ghost obs = observations@;
    let mut seen = false;
    let mut removed = false;
    let mut all_not_found = true;
    let mut i: usize = 0;
    while i < observations.len()
        invariant
            i <= observations.len(),
            obs == observations@,
            seen == has_sibling(obs.take(i as int)),
            removed == has_removed_sibling(obs.take(i as int)),
            all_not_found == siblings_all_not_found(obs.take(i as int)),
        decreases observations.len() - i,
    {
        let o = observations[i];
        let ghost a = obs.take(i as int);
        let ghost b = obs.take(i + 1);
        assert(b =~= a.push(o));
        proof {
            assert(forall|j: int| 0 <= j < a.len() ==> a[j] == b[j]);
            assert(b[i as int] == o);
            assert(has_sibling(b) == (has_sibling(a) || o.is_sibling())) by {
                if has_sibling(a) {
                    let j = choose|j: int| 0 <= j < a.len() && (#[trigger] a[j]).is_sibling();
                    assert(b[j].is_sibling());
                }
                if has_sibling(b) && !o.is_sibling() {
                    let j = choose|j: int| 0 <= j < b.len() && (#[trigger] b[j]).is_sibling();
                    assert(a[j].is_sibling());
                }
            }
            assert(has_removed_sibling(b) == (has_removed_sibling(a) || (o.is_sibling() && o.outcome is Removed))) by {
                if has_removed_sibling(a) {
                    let j = choose|j: int|
                        0 <= j < a.len() && (#[trigger] a[j]).is_sibling() && a[j].outcome is Removed;
                    assert(b[j].is_sibling());
                }
                if has_removed_sibling(b) && !(o.is_sibling() && o.outcome is Removed) {
                    let j = choose|j: int|
                        0 <= j < b.len() && (#[trigger] b[j]).is_sibling() && b[j].outcome is Removed;
                    assert(a[j].is_sibling());
                }
            }
            assert(siblings_all_not_found(b) == (siblings_all_not_found(a) && (o.is_sibling()
                ==> o.outcome is NotFound))) by {
                if siblings_all_not_found(b) {
                    assert forall|j: int| 0 <= j < a.len() && (#[trigger] a[j]).is_sibling() implies a[j].outcome
                        is NotFound by {
                        assert(b[j].is_sibling());
                    }
                }
            }
        }
        if o.role == KeyRole::BootTimeSibling {
            seen = true;
            if o.outcome == KeyOutcome::Removed {
                removed = true;
            }
            if o.outcome != KeyOutcome::NotFound {
                all_not_found = false;
            }
        }
        i = i + 1;
    }
    assert(obs.take(obs.len() as int) =~= obs);
    if !seen {
        assert(!has_removed_sibling(obs)) by {
            if has_removed_sibling(obs) {
                let j = choose|j: int|
                    0 <= j < obs.len() && (#[trigger] obs[j]).is_sibling() && obs[j].outcome is Removed;
                assert(obs[j].is_sibling());
            }
        }
        return SiblingEvidence::Unknown;
    }
    if removed {
        return SiblingEvidence::Installed;
    }
    if all_not_found {
        return SiblingEvidence::Absent;
    }
    SiblingEvidence::Unknown
}

pub open spec fn has_boot_time(obs: Seq<KeyObservation>) -> bool {
    exists|i: int| 0 <= i < obs.len() && (#[trigger] obs[i]).lifetime is BootTime
}

pub open spec fn has_unproven_boot_time(obs: Seq<KeyObservation>) -> bool {
    exists|i: int| 0 <= i < obs.len() && (#[trigger] obs[i]).lifetime is BootTime && !obs[i].empty()
}

/// A sweep that had no boot-time key saw nothing of them, rather than all of them
/// gone.
pub open spec fn sightings_of(obs: Seq<KeyObservation>) -> BootTimeSightings {
    if !has_boot_time(obs) {
        BootTimeSightings::Unseen
    } else if has_unproven_boot_time(obs) {
        BootTimeSightings::SomeUnproven
    } else {
        BootTimeSightings::AllProven
    }
}

/// What a sweep saw of boot-time keys.
pub fn boot_time_sightings(observations: &[KeyObservation]) -> (r: BootTimeSightings)
    ensures
        r == sightings_of(observations@),
{
    let ghost obs = observations@;
    let mut seen = false;
    let mut unproven = false;
    let mut i: usize = 0;
    while i < observations.len()
        invariant
            i <= observations.len(),
            obs == observations@,
            seen == has_boot_time(obs.take(i as int)),
            unproven == has_unproven_boot_time(obs.take(i as int)),
        decreases observations.len() - i,
    {
        let o = observations[i];
        let ghost a = obs.take(i as int);
        let ghost b = obs.take(i + 1);
        proof {
            assert(b =~= a.push(o));
            assert(forall|j: int| 0 <= j < a.len() ==> a[j] == b[j]);
            assert(b[i as int] == o);
            assert(has_boot_time(b) == (has_boot_time(a) || o.lifetime is BootTime)) by {
                if has_boot_time(a) {
                    let j = choose|j: int| 0 <= j < a.len() && (#[trigger] a[j]).lifetime is BootTime;
                    assert(b[j].lifetime is BootTime);
                }
                if has_boot_time(b) && !(o.lifetime is BootTime) {
                    let j = choose|j: int| 0 <= j < b.len() && (#[trigger] b[j]).lifetime is BootTime;
                    assert(a[j].lifetime is BootTime);
                }
            }
            assert(has_unproven_boot_time(b) == (has_unproven_boot_time(a) || (o.lifetime is BootTime && !o.empty())))
                by {
                if has_unproven_boot_time(a) {
                    let j = choose|j: int|
                        0 <= j < a.len() && (#[trigger] a[j]).lifetime is BootTime && !a[j].empty();
                    assert(b[j].lifetime is BootTime);
                }
                if has_unproven_boot_time(b) && !(o.lifetime is BootTime && !o.empty()) {
                    let j = choose|j: int|
                        0 <= j < b.len() && (#[trigger] b[j]).lifetime is BootTime && !b[j].empty();
                    assert(a[j].lifetime is BootTime);
                }
            }
        }
        if o.lifetime == KeyLifetime::BootTime {
            seen = true;
            if !o.proves_empty() {
                unproven = true;
            }
        }
        i = i + 1;
    }
    assert(obs.take(obs.len() as int) =~= obs);
    if !seen {
        BootTimeSightings::Unseen
    } else if unproven {
        BootTimeSightings::SomeUnproven
    } else {
        BootTimeSightings::AllProven
    }
}

/// The keys that a sweep did not prove empty, once per observation and in order.
pub open spec fn unproven_of(obs: Seq<KeyObservation>) -> Seq<&'static str>
    decreases obs.len(),
{
    if obs.len() == 0 {
        seq![]
    } else {
        let before = unproven_of(obs.drop_last());
        if obs.last().empty() {
            before
        } else {
            before.push(obs.last().key)
        }
    }
}

/// What a sweep proved, and what it has to say about what it did not prove.
#[must_use]
#[derive(Debug, Clone, PartialEq, Eq)]
pub struct Clearance {
    unproven: Vec<&'static str>,
    sibling: SiblingEvidence,
    witness: ArmingWitness,
    boot_time: BootTimeSightings,
}

/// [`Clearance`] with its keys as a sequence.
pub struct ClearanceView {
    pub unproven: Seq<&'static str>,
    pub sibling: SiblingEvidence,
    pub witness: ArmingWitness,
    pub boot_time: BootTimeSightings,
}

impl View for Clearance {
    type V = ClearanceView;

    closed spec fn view(&self) -> ClearanceView {
        ClearanceView {
            unproven: self.unproven@,
            sibling: self.sibling,
            witness: self.witness,
            boot_time: self.boot_time,
        }
    }
}

impl ClearanceView {
    /// What was folded from a sweep's observations against the record on disk.
    pub open spec fn folded(obs: Seq<KeyObservation>, witness: ArmingWitness) -> Self {
        ClearanceView {
            unproven: unproven_of(obs),
            sibling: evidence_of(obs),
            witness,
            boot_time: sightings_of(obs),
        }
    }

    /// A leftover is possible: one of the two sources leaves room for it.
    pub open spec fn possible(self) -> bool {
        self.sibling.possible() || self.witness.possible()
    }

    /// The unproven keys, where a leftover is possible.
    pub open spec fn leftover(self) -> Seq<&'static str> {
        if self.possible() {
            self.unproven
        } else {
            seq![]
        }
    }

    /// What the sweep tells the record on disk.
    pub open spec fn update(self) -> WitnessUpdate {
        match self.boot_time {
            BootTimeSightings::Unseen => WitnessUpdate::Leave,
            BootTimeSightings::AllProven => WitnessUpdate::Disarm,
            BootTimeSightings::SomeUnproven => if self.sibling.possible() {
                WitnessUpdate::Arm
            } else {
                WitnessUpdate::Leave
            },
        }
    }
}

impl Clearance {
    /// Nothing was left unproven: the answer of a platform without boot-time keys.
    pub fn proven() -> (r: Self)
        ensures
            r@.unproven == Seq::<&'static str>::empty(),
            r@.sibling == SiblingEvidence::Absent,
            r@.witness == ArmingWitness::Unset,
            r@.boot_time == BootTimeSightings::Unseen,
    {
        Clearance {
            unproven: Vec::new(),
            sibling: SiblingEvidence::Absent,
            witness: ArmingWitness::Unset,
            boot_time: BootTimeSightings::Unseen,
        }
    }

    /// Fold a sweep's observations against the record on disk.
    pub fn from_observations(observations: &[KeyObservation], witness: ArmingWitness) -> (r: Self)
        ensures
            r@ == ClearanceView::folded(observations@, witness),
    {
        let ghost obs = observations@;
        let mut unproven: Vec<&'static str> = Vec::new();
        let mut i: usize = 0;
        while i < observations.len()
            invariant
                i <= observations.len(),
                obs == observations@,
                unproven@ == unproven_of(obs.take(i as int)),
            decreases observations.len() - i,
        {
            assert(obs.take(i + 1).drop_last() =~= obs.take(i as int));
            if !observations[i].proves_empty() {
                unproven.push(observations[i].key);
            }
            i = i + 1;
        }
        assert(obs.take(obs.len() as int) =~= obs);
        Clearance {
            unproven,
            sibling: sibling_evidence(observations),
            witness,
            boot_time: boot_time_sightings(observations),
        }
    }

    /// Fold in another record of the same host.
    pub fn corroborate(self, witness: ArmingWitness) -> (r: Self)
        ensures
            r@ == (ClearanceView { witness: self@.witness.joined(witness), ..self@ }),
    {
        Clearance {
            unproven: self.unproven,
            sibling: self.sibling,
            witness: self.witness.or(witness),
            boot_time: self.boot_time,
        }
    }

    /// Whether every key was proven empty.
    pub fn is_proven(&self) -> (r: bool)
        ensures
            r == (self@.unproven.len() == 0),
    {
        self.unproven.is_empty()
    }

    /// The keys that were not proven empty.
    pub fn unproven_keys(&self) -> (r: &[&'static str])
        ensures
            r@ == self@.unproven,
    {
        self.unproven.as_slice()
    }

    /// The unproven keys worth reporting: none where both sources rule a leftover
    /// out.
    pub fn leftover_keys(&self) -> (r: &[&'static str])
        ensures
            r@ == self@.leftover(),
    {
        if self.sibling.record_possible() || self.witness.record_possible() {
            self.unproven.as_slice()
        } else {
            vstd::slice::slice_subrange(self.unproven.as_slice(), 0, 0)
        }
    }

    /// What the sweep tells the record on disk. Only a sweep that watched every
    /// boot-time key go retracts it.
    pub fn witness_update(&self) -> (r: WitnessUpdate)
        ensures
            r == self@.update(),
    {
        match (self.boot_time, self.sibling) {
            (BootTimeSightings::Unseen, _) => WitnessUpdate::Leave,
            (BootTimeSightings::AllProven, _) => WitnessUpdate::Disarm,
            (BootTimeSightings::SomeUnproven, SiblingEvidence::Installed) => WitnessUpdate::Arm,
            (BootTimeSightings::SomeUnproven, SiblingEvidence::Unknown) => WitnessUpdate::Arm,
            (BootTimeSightings::SomeUnproven, SiblingEvidence::Absent) => WitnessUpdate::Leave,
        }
    }
}

/// A sweep's clearance and, beside it, the failure that ended it. The two travel
/// together, so a failure cannot take what was seen away with it.
#[must_use]
pub struct SweepOutcome {
    clearance: Clearance,
    failure: Option<RoutingError>,
}

impl SweepOutcome {
    pub closed spec fn cleared(self) -> Clearance {
        self.clearance
    }

    pub closed spec fn failed_with(self) -> Option<RoutingError> {
        self.failure
    }

    /// A sweep that completed.
    pub fn completed(clearance: Clearance) -> (r: Self)
        ensures
            r.cleared() == clearance,
            r.failed_with() is None,
    {
        SweepOutcome { clearance, failure: None }
    }

    /// A sweep that failed after it saw what it saw.
    pub fn failed(clearance: Clearance, error: RoutingError) -> (r: Self)
        ensures
            r.cleared() == clearance,
            r.failed_with() == Some(error),
    {
        SweepOutcome { clearance, failure: Some(error) }
    }

    /// What was seen.
    pub fn clearance(&self) -> (r: &Clearance)
        ensures
            *r == self.cleared(),
    {
        &self.clearance
    }

    /// The clearance, or the failure where there is one.
    pub fn into_result(self) -> (r: Result<Clearance, RoutingError>)
        ensures
            r == match self.failed_with() {
                Some(e) => Err::<Clearance, RoutingError>(e),
                None => Ok(self.cleared()),
            },
    {
        match self.failure {
            Some(e) => Err(e),
            None => Ok(self.clearance),
        }
    }
}

/// How a sweep ends: what to write to the record first, and then the result.
pub struct SweepEnd {
    /// The `armed` flag to write, where the record changes.
    pub record: Option<bool>,
    pub result: Result<Clearance, RoutingError>,
}

/// End a sweep that was run against the record `witness`. The record is updated
/// from what the sweep saw whether or not it failed.
pub fn sweep_with_witness(witness: ArmingWitness, outcome: SweepOutcome) -> (r: SweepEnd)
    ensures
        r.record == record_to_write(witness, outcome.cleared()@.update()),
        r.result == match outcome.failed_with() {
            Some(e) => Err::<Clearance, RoutingError>(e),
            None => Ok(outcome.cleared()),
        },
{
    let record = next_record(witness, outcome.clearance.witness_update());
    SweepEnd { record, result: outcome.into_result() }
}

} // verus!
