//! What holds of one sweep, and of a sequence of sweeps over one record.

use vstd::prelude::*;
use crate::routing::failclosed::boottime_witness::{
    record_to_write, witness_after, witness_of, BootTimeState, WitnessUpdate,
};
use crate::routing::failclosed::clearance::{
    evidence_of, has_unproven_boot_time, sightings_of, unproven_of, ArmingWitness, BootTimeSightings, ClearanceView,
    KeyLifetime, KeyObservation, KeyOutcome, KeyRole, SiblingEvidence,
};
use crate::routing::state_file::Stored;

verus! {

/// A sweep is proven clear exactly when every key it touched was proven empty.
pub proof fn proven_iff_every_key_was(obs: Seq<KeyObservation>)
    ensures
        unproven_of(obs).len() == 0 <==> forall|i: int| 0 <= i < obs.len() ==> (#[trigger] obs[i]).empty(),
    decreases obs.len(),
{
    if obs.len() > 0 {
        let before = obs.drop_last();
        proven_iff_every_key_was(before);
        if forall|i: int| 0 <= i < obs.len() ==> (#[trigger] obs[i]).empty() {
            assert forall|i: int| 0 <= i < before.len() implies (#[trigger] before[i]).empty() by {
                assert(before[i] == obs[i]);
            }
            assert(obs.last().empty());
        }
        if unproven_of(obs).len() == 0 {
            assert forall|i: int| 0 <= i < obs.len() implies (#[trigger] obs[i]).empty() by {
                if i < before.len() {
                    assert(before[i] == obs[i]);
                }
            }
        }
    }
}

/// Every key that was not proven empty is named, and no other is.
pub proof fn unproven_names_exactly_the_unproven(obs: Seq<KeyObservation>, key: &'static str)
    ensures
        unproven_of(obs).contains(key) <==> exists|i: int|
            0 <= i < obs.len() && !(#[trigger] obs[i]).empty() && obs[i].key == key,
    decreases obs.len(),
{
    if obs.len() > 0 {
        let before = obs.drop_last();
        let named = unproven_of(before);
        unproven_names_exactly_the_unproven(before, key);
        if unproven_of(obs).contains(key) {
            let j = choose|j: int| 0 <= j < unproven_of(obs).len() && unproven_of(obs)[j] == key;
            if j < named.len() {
                assert(named[j] == key);
                let i = choose|i: int| 0 <= i < before.len() && !(#[trigger] before[i]).empty() && before[i].key == key;
                assert(obs[i] == before[i]);
            } else {
                assert(!obs[obs.len() - 1].empty());
            }
        }
        if exists|i: int| 0 <= i < obs.len() && !(#[trigger] obs[i]).empty() && obs[i].key == key {
            let i = choose|i: int| 0 <= i < obs.len() && !(#[trigger] obs[i]).empty() && obs[i].key == key;
            if i < before.len() {
                assert(before[i] == obs[i]);
                let j = choose|j: int| 0 <= j < named.len() && named[j] == key;
                assert(unproven_of(obs)[j] == key);
            } else {
                assert(unproven_of(obs).last() == key);
            }
        }
    }
}

/// A report is silent only where nothing is unproven, or where the sweep found no
/// cover and no record says one was ever armed.
pub proof fn silence_needs_proof_or_both_sources(c: ClearanceView)
    ensures
        c.leftover().len() == 0 <==> c.unproven.len() == 0 || (c.sibling is Absent && !c.witness.possible()),
{
}

/// A sweep of no key at all rules nothing out and tells the record nothing.
pub proof fn an_empty_sweep_says_nothing(witness: ArmingWitness)
    ensures
        evidence_of(Seq::empty()) == SiblingEvidence::Unknown,
        witness_after(witness, ClearanceView::folded(Seq::empty(), witness).update()) == witness,
{
}

/// Corroboration moves only toward reporting: it keeps what was reported, never
/// touches what was proven, and adds a report where the other record leaves room
/// for one.
pub proof fn corroboration_moves_only_toward_reporting(c: ClearanceView, other: ArmingWitness)
    ensures
        ({
            let joined = ClearanceView { witness: c.witness.joined(other), ..c };
            &&& c.leftover().len() > 0 ==> joined.leftover() == c.leftover()
            &&& other.possible() ==> joined.leftover() == c.unproven
            &&& joined.unproven == c.unproven
        }),
{
}

/// The record after one sweep, where a write that was due has succeeded.
pub open spec fn record_after(witness: ArmingWitness, obs: Seq<KeyObservation>) -> ArmingWitness {
    witness_after(witness, ClearanceView::folded(obs, witness).update())
}

/// The record after several sweeps, the first of them first.
pub open spec fn record_after_all(witness: ArmingWitness, sweeps: Seq<Seq<KeyObservation>>) -> ArmingWitness
    decreases sweeps.len(),
{
    if sweeps.len() == 0 {
        witness
    } else {
        record_after(record_after_all(witness, sweeps.drop_last()), sweeps.last())
    }
}

/// The sweep watched every boot-time key it touched go.
pub open spec fn watched_all_go(obs: Seq<KeyObservation>) -> bool {
    sightings_of(obs) == BootTimeSightings::AllProven
}

/// The one sweep that retracts a record is one that watched every boot-time key it
/// touched go.
pub proof fn only_a_watched_removal_retracts(witness: ArmingWitness, obs: Seq<KeyObservation>)
    requires
        witness.possible(),
    ensures
        !record_after(witness, obs).possible() <==> watched_all_go(obs),
{
}

/// Finding an unproven boot-time key where a cover is not ruled out arms the
/// record, whatever it said before.
pub proof fn an_unproven_key_beside_a_cover_arms(witness: ArmingWitness, obs: Seq<KeyObservation>)
    requires
        has_unproven_boot_time(obs),
        evidence_of(obs).possible(),
    ensures
        record_after(witness, obs) == ArmingWitness::Armed,
{
    let i = choose|i: int|
        0 <= i < obs.len() && (#[trigger] obs[i]).lifetime is BootTime && !obs[i].empty();
    assert(obs[i].lifetime is BootTime);
}

/// A record that leaves room for a leftover keeps doing so through any number of
/// sweeps none of which watched every boot-time key go. In particular an empty
/// sibling set never clears it.
pub proof fn a_record_survives_inconclusive_sweeps(witness: ArmingWitness, sweeps: Seq<Seq<KeyObservation>>)
    requires
        witness.possible(),
        forall|i: int| 0 <= i < sweeps.len() ==> !watched_all_go(#[trigger] sweeps[i]),
    ensures
        record_after_all(witness, sweeps).possible(),
    decreases sweeps.len(),
{
    if sweeps.len() > 0 {
        let before = sweeps.drop_last();
        assert forall|i: int| 0 <= i < before.len() implies !watched_all_go(#[trigger] before[i]) by {
            assert(before[i] == sweeps[i]);
        }
        a_record_survives_inconclusive_sweeps(witness, before);
        assert(!watched_all_go(sweeps[sweeps.len() - 1]));
        only_a_watched_removal_retracts(record_after_all(witness, before), sweeps.last());
    }
}

/// A sweep that consumed the live evidence leaves every later one able to report:
/// after it, and after any number of inconclusive sweeps, a sweep reports all that
/// it did not prove.
pub proof fn a_consumed_sibling_is_remembered(
    witness: ArmingWitness,
    first: Seq<KeyObservation>,
    between: Seq<Seq<KeyObservation>>,
    last: Seq<KeyObservation>,
)
    requires
        has_unproven_boot_time(first),
        evidence_of(first).possible(),
        forall|i: int| 0 <= i < between.len() ==> !watched_all_go(#[trigger] between[i]),
    ensures
        ({
            let record = record_after_all(record_after(witness, first), between);
            ClearanceView::folded(last, record).leftover() == unproven_of(last)
        }),
{
    an_unproven_key_beside_a_cover_arms(witness, first);
    a_record_survives_inconclusive_sweeps(record_after(witness, first), between);
}

/// A host that never armed a boot-time key stays silent, and without a record,
/// through every sweep that finds no cover.
pub proof fn a_host_that_never_armed_stays_silent(sweeps: Seq<Seq<KeyObservation>>, last: Seq<KeyObservation>)
    requires
        forall|i: int| 0 <= i < sweeps.len() ==> evidence_of(#[trigger] sweeps[i]) is Absent,
        evidence_of(last) is Absent,
    ensures
        record_after_all(ArmingWitness::Unset, sweeps) == ArmingWitness::Unset,
        ClearanceView::folded(last, record_after_all(ArmingWitness::Unset, sweeps)).leftover().len() == 0,
    decreases sweeps.len(),
{
    if sweeps.len() > 0 {
        let before = sweeps.drop_last();
        assert forall|i: int| 0 <= i < before.len() implies evidence_of(#[trigger] before[i]) is Absent by {
            assert(before[i] == sweeps[i]);
        }
        a_host_that_never_armed_stays_silent(before, last);
        assert(evidence_of(sweeps[sweeps.len() - 1]) is Absent);
    }
}

/// Once a sweep has watched every boot-time key go, a later sweep that finds no
/// cover has nothing to report.
pub proof fn a_watched_removal_ends_the_report(
    witness: ArmingWitness,
    first: Seq<KeyObservation>,
    last: Seq<KeyObservation>,
)
    requires
        watched_all_go(first),
        evidence_of(last) is Absent,
    ensures
        ClearanceView::folded(last, record_after(witness, first)).leftover().len() == 0,
{
}

/// A sweep without a boot-time key leaves the record alone.
pub proof fn no_boot_time_key_no_update(witness: ArmingWitness, obs: Seq<KeyObservation>)
    requires
        sightings_of(obs) == BootTimeSightings::Unseen,
    ensures
        ClearanceView::folded(obs, witness).update() == WitnessUpdate::Leave,
        record_after(witness, obs) == witness,
{
}

/// The outcome leaves it open whether the key holds something: deleting it failed, or
/// a boot-time key was not found, which it never is while its object is not live.
pub open spec fn left_open(o: KeyObservation) -> bool {
    o.outcome == KeyOutcome::Failed || (o.outcome == KeyOutcome::NotFound && o.lifetime == KeyLifetime::BootTime)
}

/// A key is proven empty exactly where its outcome leaves nothing open.
pub proof fn a_key_is_empty_unless_left_open(o: KeyObservation)
    ensures
        o.empty() <==> !left_open(o),
        o.is_sibling() <==> o.role == KeyRole::BootTimeSibling,
{
}

/// The keys that a sweep reports are those it left open, each as often as it was
/// touched and in the order of the sweep.
pub proof fn a_sweep_reports_what_it_left_open(obs: Seq<KeyObservation>)
    ensures
        unproven_of(obs) == obs.filter(|o: KeyObservation| left_open(o)).map_values(|o: KeyObservation| o.key),
    decreases obs.len(),
{
    reveal(Seq::filter);
    let open = |o: KeyObservation| left_open(o);
    let key = |o: KeyObservation| o.key;
    if obs.len() == 0 {
        assert(obs.filter(open).map_values(key) =~= unproven_of(obs));
    } else {
        let before = obs.drop_last();
        a_sweep_reports_what_it_left_open(before);
        a_key_is_empty_unless_left_open(obs.last());
        if left_open(obs.last()) {
            assert(obs.filter(open) == before.filter(open).push(obs.last()));
            assert(obs.filter(open).map_values(key) =~= before.filter(open).map_values(key).push(obs.last().key));
        } else {
            assert(obs.filter(open) == before.filter(open));
        }
    }
}

/// A sibling that was removed shows that a cover was installed, whatever the others
/// say. None was only where there are siblings and each was not found. Keys that are
/// no siblings have no say.
pub proof fn what_siblings_show(obs: Seq<KeyObservation>, i: int)
    requires
        0 <= i < obs.len(),
        obs[i].role == KeyRole::BootTimeSibling,
    ensures
        obs[i].outcome == KeyOutcome::Removed ==> evidence_of(obs) == SiblingEvidence::Installed,
        obs[i].outcome == KeyOutcome::Failed ==> evidence_of(obs) != SiblingEvidence::Absent,
        (forall|k: int|
            0 <= k < obs.len() && (#[trigger] obs[k]).role == KeyRole::BootTimeSibling ==> obs[k].outcome
                == KeyOutcome::NotFound) ==> evidence_of(obs) == SiblingEvidence::Absent,
        (forall|k: int|
            0 <= k < obs.len() && (#[trigger] obs[k]).role == KeyRole::BootTimeSibling ==> obs[k].outcome
                != KeyOutcome::Removed) ==> evidence_of(obs) != SiblingEvidence::Installed,
{
    assert(obs[i].is_sibling());
    if obs[i].outcome is Removed {
        assert(obs[i].is_sibling() && obs[i].outcome is Removed);
    }
}

/// Without a sibling a sweep shows nothing of a cover.
pub proof fn no_sibling_shows_nothing(obs: Seq<KeyObservation>)
    requires
        forall|k: int| 0 <= k < obs.len() ==> (#[trigger] obs[k]).role == KeyRole::Plain,
    ensures
        evidence_of(obs) == SiblingEvidence::Unknown,
{
}

/// A sweep watched all boot-time keys go where it had one and left none open, and saw
/// none where it had none.
pub proof fn what_a_sweep_saw_of_boot_time_keys(obs: Seq<KeyObservation>, i: int)
    requires
        0 <= i < obs.len(),
        obs[i].lifetime == KeyLifetime::BootTime,
    ensures
        left_open(obs[i]) ==> sightings_of(obs) == BootTimeSightings::SomeUnproven,
        (forall|k: int|
            0 <= k < obs.len() && (#[trigger] obs[k]).lifetime == KeyLifetime::BootTime ==> obs[k].outcome
                == KeyOutcome::Removed) ==> sightings_of(obs) == BootTimeSightings::AllProven,
{
    assert(obs[i].lifetime is BootTime);
    if left_open(obs[i]) {
        assert(obs[i].lifetime is BootTime && !obs[i].empty());
    }
}

/// A sweep over persistent keys alone saw nothing of boot-time keys.
pub proof fn no_boot_time_key_is_no_sighting(obs: Seq<KeyObservation>)
    requires
        forall|k: int| 0 <= k < obs.len() ==> (#[trigger] obs[k]).lifetime == KeyLifetime::Persistent,
    ensures
        sightings_of(obs) == BootTimeSightings::Unseen,
{
}

/// A record leaves room for a leftover unless it says disarmed or was never written;
/// of two records the one that leaves room counts.
pub proof fn the_more_cautious_record_counts(a: ArmingWitness, b: ArmingWitness, sibling: SiblingEvidence)
    ensures
        a.possible() <==> a == ArmingWitness::Armed || a == ArmingWitness::Unreadable,
        a.joined(b).possible() <==> a.possible() || b.possible(),
        a.possible() ==> a.joined(b) == a,
        !a.possible() ==> a.joined(b) == b,
        sibling.possible() <==> sibling != SiblingEvidence::Absent,
{
}

/// What a sweep tells the record: nothing where it saw no boot-time key; to disarm
/// where it watched all of them go; to arm where one is left open, unless the siblings
/// rule a cover out.
pub proof fn what_a_sweep_tells_the_record(c: ClearanceView)
    ensures
        match (c.boot_time, c.sibling) {
            (BootTimeSightings::Unseen, _) => c.update() == WitnessUpdate::Leave,
            (BootTimeSightings::AllProven, _) => c.update() == WitnessUpdate::Disarm,
            (BootTimeSightings::SomeUnproven, SiblingEvidence::Absent) => c.update() == WitnessUpdate::Leave,
            (BootTimeSightings::SomeUnproven, _) => c.update() == WitnessUpdate::Arm,
        },
{
}

/// A record is written only where it changes what the record says, and then says what
/// it was told: armed or disarmed. A host without a record gets none to disarm.
pub proof fn a_record_is_written_only_to_change_it(current: ArmingWitness, update: WitnessUpdate)
    ensures
        record_to_write(current, update) == match (update, current) {
            (WitnessUpdate::Arm, ArmingWitness::Disarmed) => Some(true),
            (WitnessUpdate::Arm, ArmingWitness::Unset) => Some(true),
            (WitnessUpdate::Arm, ArmingWitness::Unreadable) => Some(true),
            (WitnessUpdate::Disarm, ArmingWitness::Armed) => Some(false),
            (WitnessUpdate::Disarm, ArmingWitness::Unreadable) => Some(false),
            _ => None,
        },
{
}

/// A record reads as what it says where it parses with the version that is written. A
/// file that is there and does not is unreadable, which leaves room for a leftover.
pub proof fn a_boot_time_record_reads_as_it_says(stored: Stored<BootTimeState>)
    ensures
        match stored {
            Stored::Missing => witness_of(stored) == ArmingWitness::Unset,
            Stored::Parsed(s) if s.version == 1 => witness_of(stored) == if s.armed {
                ArmingWitness::Armed
            } else {
                ArmingWitness::Disarmed
            },
            _ => witness_of(stored) == ArmingWitness::Unreadable,
        },
{
}

/// A clearance holds what its sweep left open and what its keys show, against the
/// record that it was folded with, and reports all that was left open or nothing:
/// nothing only where the siblings and the record both rule a leftover out.
pub proof fn what_a_clearance_holds(obs: Seq<KeyObservation>, witness: ArmingWitness)
    ensures
        ({
            let c = ClearanceView::folded(obs, witness);
            &&& c.unproven == unproven_of(obs)
            &&& c.sibling == evidence_of(obs)
            &&& c.witness == witness
            &&& c.boot_time == sightings_of(obs)
            &&& c.leftover() == if evidence_of(obs) == SiblingEvidence::Absent && (witness == ArmingWitness::Disarmed
                || witness == ArmingWitness::Unset) {
                Seq::<&'static str>::empty()
            } else {
                unproven_of(obs)
            }
        }),
{
}

} // verus!
