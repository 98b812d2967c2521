//! What a sweep of firewall keys proves and what it reports.

use tun_engine::error::RoutingError;
use tun_engine::routing::failclosed::boottime_witness::WitnessUpdate;
use tun_engine::routing::failclosed::clearance::{
    boot_time_sightings, sibling_evidence, ArmingWitness, BootTimeSightings, Clearance, KeyLifetime, KeyObservation,
    KeyOutcome, KeyRole, SiblingEvidence, SweepOutcome,
};

fn fold(observations: &[KeyObservation]) -> Clearance {
    Clearance::from_observations(observations, ArmingWitness::Unset)
}

fn obs(key: &'static str, lifetime: KeyLifetime, outcome: KeyOutcome) -> KeyObservation {
    KeyObservation {
        key,
        lifetime,
        outcome,
        role: KeyRole::Plain,
    }
}

fn sibling(outcome: KeyOutcome) -> KeyObservation {
    KeyObservation {
        key: "lockdown filter",
        lifetime: KeyLifetime::Persistent,
        outcome,
        role: KeyRole::BootTimeSibling,
    }
}

fn unproven_twin() -> KeyObservation {
    obs(
        "lockdown boot-time block-all V4",
        KeyLifetime::BootTime,
        KeyOutcome::NotFound,
    )
}

#[test]
fn a_sweep_that_observed_nothing_is_proven_clear() {
    assert!(fold(&[]).is_proven());
    assert!(Clearance::proven().is_proven());
    assert!(Clearance::proven().unproven_keys().is_empty());
}

#[test]
fn a_persistent_key_that_answered_not_found_is_proven_empty() {
    let c = fold(&[obs("lockdown filter", KeyLifetime::Persistent, KeyOutcome::NotFound)]);
    assert!(c.is_proven());
    assert!(c.unproven_keys().is_empty());
}

#[test]
fn a_boot_time_key_that_answered_not_found_is_not_proven_empty() {
    let c = fold(&[obs(
        "lockdown boot-time block-all V4",
        KeyLifetime::BootTime,
        KeyOutcome::NotFound,
    )]);
    assert!(!c.is_proven());
    assert_eq!(c.unproven_keys(), ["lockdown boot-time block-all V4"]);
}

#[test]
fn a_boot_time_key_the_delete_removed_is_proven_by_the_watched_removal() {
    let c = fold(&[obs(
        "lockdown boot-time block-all V4",
        KeyLifetime::BootTime,
        KeyOutcome::Removed,
    )]);
    assert!(c.is_proven());
    assert!(c.unproven_keys().is_empty());
}

#[test]
fn a_failing_sweep_outcome_carries_its_observations_beside_the_error() {
    let outcome = SweepOutcome::failed(
        fold(&[sibling(KeyOutcome::Removed), unproven_twin()]),
        RoutingError::RouteSetup("one delete was refused".into()),
    );
    assert_eq!(outcome.clearance().witness_update(), WitnessUpdate::Arm);
    assert_eq!(outcome.clearance().leftover_keys(), ["lockdown boot-time block-all V4"]);
    assert!(outcome.into_result().is_err());

    let clean = SweepOutcome::completed(Clearance::proven());
    assert!(clean.clearance().is_proven());
    assert!(clean.into_result().is_ok());
}

#[test]
fn a_mixed_sweep_names_every_unproven_key_and_only_those() {
    let c = fold(&[
        obs("lockdown filter", KeyLifetime::Persistent, KeyOutcome::NotFound),
        obs("boot-time block-all V4", KeyLifetime::BootTime, KeyOutcome::NotFound),
        obs("transient filter", KeyLifetime::Persistent, KeyOutcome::Removed),
        obs("boot-time block-all V6", KeyLifetime::BootTime, KeyOutcome::Removed),
        obs(
            "boot-time block-all V6 twin",
            KeyLifetime::BootTime,
            KeyOutcome::NotFound,
        ),
    ]);
    assert!(!c.is_proven());
    assert_eq!(c.unproven_keys(), ["boot-time block-all V4", "boot-time block-all V6 twin"]);
}

#[test]
fn a_delete_that_failed_proves_nothing_for_either_lifetime() {
    for lifetime in [KeyLifetime::Persistent, KeyLifetime::BootTime] {
        let o = obs("lockdown filter", lifetime, KeyOutcome::Failed);
        assert!(!o.proves_empty());
        let c = fold(&[o]);
        assert!(!c.is_proven());
        assert_eq!(c.unproven_keys(), ["lockdown filter"]);
    }
}

#[test]
fn every_outcome_lifetime_pair_has_one_answer() {
    let table = [
        (KeyLifetime::Persistent, KeyOutcome::Removed, true),
        (KeyLifetime::Persistent, KeyOutcome::NotFound, true),
        (KeyLifetime::Persistent, KeyOutcome::Failed, false),
        (KeyLifetime::BootTime, KeyOutcome::Removed, true),
        (KeyLifetime::BootTime, KeyOutcome::NotFound, false),
        (KeyLifetime::BootTime, KeyOutcome::Failed, false),
    ];
    for (lifetime, outcome, proves) in table {
        assert_eq!(obs("k", lifetime, outcome).proves_empty(), proves);
    }
}

#[test]
fn clearance_reports_the_same_key_once_per_observation_it_could_not_prove() {
    let c = fold(&[
        obs("lockdown boot-time filter", KeyLifetime::BootTime, KeyOutcome::NotFound),
        obs("lockdown boot-time filter", KeyLifetime::BootTime, KeyOutcome::NotFound),
    ]);
    assert_eq!(c.unproven_keys().len(), 2);
}

#[test]
fn a_twin_on_a_host_with_no_standing_cover_is_unproven_but_not_reported() {
    let c = fold(&[sibling(KeyOutcome::NotFound), unproven_twin()]);
    assert!(!c.is_proven());
    assert_eq!(c.unproven_keys(), ["lockdown boot-time block-all V4"]);
    assert!(c.leftover_keys().is_empty());
}

#[test]
fn a_twin_beside_a_cover_this_sweep_removed_is_reported() {
    let c = fold(&[sibling(KeyOutcome::Removed), unproven_twin()]);
    assert_eq!(c.leftover_keys(), ["lockdown boot-time block-all V4"]);
}

#[test]
fn a_sweep_carrying_no_sibling_at_all_reports_its_unproven_twins() {
    let c = fold(&[unproven_twin()]);
    assert_eq!(c.leftover_keys(), ["lockdown boot-time block-all V4"]);
}

#[test]
fn a_sibling_whose_delete_failed_cannot_rule_out_a_leftover() {
    let c = fold(&[sibling(KeyOutcome::Failed), unproven_twin()]);
    assert!(c.leftover_keys().contains(&"lockdown boot-time block-all V4"));
}

#[test]
fn one_removed_sibling_outweighs_an_empty_one() {
    let c = fold(&[
        sibling(KeyOutcome::NotFound),
        sibling(KeyOutcome::Removed),
        unproven_twin(),
    ]);
    assert_eq!(c.leftover_keys(), ["lockdown boot-time block-all V4"]);
}

#[test]
fn an_uninstall_on_the_boot_that_engaged_is_quiet_because_it_watched_the_twin_go() {
    let c = fold(&[
        sibling(KeyOutcome::Removed),
        obs(
            "lockdown boot-time block-all V4",
            KeyLifetime::BootTime,
            KeyOutcome::Removed,
        ),
    ]);
    assert!(c.is_proven());
    assert!(c.leftover_keys().is_empty());
    assert!(Clearance::proven().leftover_keys().is_empty());
}

#[test]
fn every_sibling_evidence_has_one_answer_and_only_an_empty_one_suppresses() {
    let table = [
        (KeyOutcome::Removed, SiblingEvidence::Installed, true),
        (KeyOutcome::NotFound, SiblingEvidence::Absent, false),
        (KeyOutcome::Failed, SiblingEvidence::Unknown, true),
    ];
    for (outcome, evidence, reports) in table {
        assert_eq!(sibling_evidence(&[sibling(outcome)]), evidence);
        let c = fold(&[sibling(outcome), unproven_twin()]);
        assert_eq!(c.leftover_keys().contains(&"lockdown boot-time block-all V4"), reports);
    }
    assert_eq!(sibling_evidence(&[]), SiblingEvidence::Unknown);
    assert_eq!(sibling_evidence(&[obs("k", KeyLifetime::Persistent, KeyOutcome::Removed)]), SiblingEvidence::Unknown);
}

#[test]
fn a_recorded_twin_reports_even_where_the_sibling_is_gone() {
    let c = Clearance::from_observations(&[sibling(KeyOutcome::NotFound), unproven_twin()], ArmingWitness::Armed);
    assert_eq!(c.leftover_keys(), ["lockdown boot-time block-all V4"]);
}

#[test]
fn a_live_sibling_reports_even_where_the_record_is_gone() {
    let c = Clearance::from_observations(&[sibling(KeyOutcome::Removed), unproven_twin()], ArmingWitness::Unset);
    assert_eq!(c.leftover_keys(), ["lockdown boot-time block-all V4"]);
}

#[test]
fn every_evidence_pair_has_one_answer_and_only_both_ruling_out_suppresses() {
    let sibling_axis = [
        (KeyOutcome::Removed, SiblingEvidence::Installed, true),
        (KeyOutcome::Failed, SiblingEvidence::Unknown, true),
        (KeyOutcome::NotFound, SiblingEvidence::Absent, false),
    ];
    let witness_axis = [
        (ArmingWitness::Armed, true),
        (ArmingWitness::Unreadable, true),
        (ArmingWitness::Disarmed, false),
        (ArmingWitness::Unset, false),
    ];
    for (outcome, evidence, sibling_reports) in sibling_axis {
        assert_eq!(sibling_evidence(&[sibling(outcome)]), evidence);
        for (witness, witness_reports) in witness_axis {
            let c = Clearance::from_observations(&[sibling(outcome), unproven_twin()], witness);
            assert_eq!(!c.leftover_keys().is_empty(), sibling_reports || witness_reports);
            assert!(!c.is_proven());
        }
    }
}

#[test]
fn a_sweep_with_no_boot_time_key_reports_nothing_however_loudly_both_sources_speak() {
    let c = Clearance::from_observations(
        &[
            sibling(KeyOutcome::Removed),
            obs("lockdown filter", KeyLifetime::Persistent, KeyOutcome::Removed),
        ],
        ArmingWitness::Armed,
    );
    assert!(c.is_proven());
    assert!(c.leftover_keys().is_empty());
}

#[test]
fn corroboration_moves_only_toward_reporting() {
    let armed = Clearance::from_observations(&[sibling(KeyOutcome::NotFound), unproven_twin()], ArmingWitness::Armed);
    for peer in [
        ArmingWitness::Unset,
        ArmingWitness::Disarmed,
        ArmingWitness::Armed,
        ArmingWitness::Unreadable,
    ] {
        assert_eq!(armed.clone().corroborate(peer).leftover_keys(), ["lockdown boot-time block-all V4"]);
    }

    let quiet = Clearance::from_observations(&[sibling(KeyOutcome::NotFound), unproven_twin()], ArmingWitness::Unset);
    assert!(quiet.clone().corroborate(ArmingWitness::Unset).leftover_keys().is_empty());
    assert_eq!(quiet.corroborate(ArmingWitness::Armed).leftover_keys(), ["lockdown boot-time block-all V4"]);
}

#[test]
fn every_sighting_and_sibling_pair_has_one_write_answer() {
    let removed_twin = obs(
        "lockdown boot-time block-all V4",
        KeyLifetime::BootTime,
        KeyOutcome::Removed,
    );
    let table = [
        (vec![sibling(KeyOutcome::Removed)], WitnessUpdate::Leave),
        (vec![sibling(KeyOutcome::NotFound)], WitnessUpdate::Leave),
        (vec![], WitnessUpdate::Leave),
        (vec![sibling(KeyOutcome::Removed), unproven_twin()], WitnessUpdate::Arm),
        (vec![unproven_twin()], WitnessUpdate::Arm),
        (vec![sibling(KeyOutcome::Failed), unproven_twin()], WitnessUpdate::Arm),
        (
            vec![sibling(KeyOutcome::NotFound), unproven_twin()],
            WitnessUpdate::Leave,
        ),
        (vec![sibling(KeyOutcome::Removed), removed_twin], WitnessUpdate::Disarm),
        (vec![sibling(KeyOutcome::NotFound), removed_twin], WitnessUpdate::Disarm),
        (vec![sibling(KeyOutcome::Failed), removed_twin], WitnessUpdate::Disarm),
        (vec![removed_twin], WitnessUpdate::Disarm),
        (
            vec![
                obs("twin A", KeyLifetime::BootTime, KeyOutcome::Removed),
                obs("twin B", KeyLifetime::BootTime, KeyOutcome::NotFound),
                sibling(KeyOutcome::Removed),
            ],
            WitnessUpdate::Arm,
        ),
        (
            vec![
                obs("twin A", KeyLifetime::BootTime, KeyOutcome::Removed),
                obs("twin B", KeyLifetime::BootTime, KeyOutcome::Failed),
                sibling(KeyOutcome::Removed),
            ],
            WitnessUpdate::Arm,
        ),
        (
            vec![
                obs("twin A", KeyLifetime::BootTime, KeyOutcome::NotFound),
                obs("twin B", KeyLifetime::BootTime, KeyOutcome::Removed),
                sibling(KeyOutcome::Removed),
            ],
            WitnessUpdate::Arm,
        ),
        (
            vec![
                obs("twin A", KeyLifetime::BootTime, KeyOutcome::Failed),
                obs("twin B", KeyLifetime::BootTime, KeyOutcome::Removed),
                sibling(KeyOutcome::Removed),
            ],
            WitnessUpdate::Arm,
        ),
    ];
    for (observations, want) in table {
        assert_eq!(fold(&observations).witness_update(), want);
    }
}

#[test]
fn sightings_distinguish_none_from_all_proven() {
    let removed = obs("twin", KeyLifetime::BootTime, KeyOutcome::Removed);
    assert_eq!(boot_time_sightings(&[]), BootTimeSightings::Unseen);
    assert_eq!(boot_time_sightings(&[sibling(KeyOutcome::Removed)]), BootTimeSightings::Unseen);
    assert_eq!(boot_time_sightings(&[removed]), BootTimeSightings::AllProven);
    assert_eq!(boot_time_sightings(&[removed, unproven_twin()]), BootTimeSightings::SomeUnproven);
}

#[test]
fn a_record_that_rules_nothing_out_wins_over_one_that_does() {
    assert_eq!(ArmingWitness::Disarmed.or(ArmingWitness::Armed), ArmingWitness::Armed);
    assert_eq!(ArmingWitness::Unreadable.or(ArmingWitness::Disarmed), ArmingWitness::Unreadable);
    assert_eq!(ArmingWitness::Armed.or(ArmingWitness::Unreadable), ArmingWitness::Armed);
    assert_eq!(ArmingWitness::Unset.or(ArmingWitness::Disarmed), ArmingWitness::Disarmed);
    assert!(ArmingWitness::Armed.record_possible());
    assert!(!ArmingWitness::Disarmed.record_possible());
    assert!(SiblingEvidence::Unknown.record_possible());
    assert!(!SiblingEvidence::Absent.record_possible());
}
