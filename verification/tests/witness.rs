//! The record of boot-time keys across sweeps.

use tun_engine::error::RoutingError;
use tun_engine::routing::failclosed::boottime_witness;
use tun_engine::routing::failclosed::boottime_witness::{next_record, BootTimeState, WitnessUpdate, SCHEMA_VERSION};
use tun_engine::routing::failclosed::clearance::{
    sweep_with_witness, ArmingWitness, Clearance, KeyLifetime, KeyObservation, KeyOutcome, KeyRole, SweepOutcome,
};
use tun_engine::routing::state_file::Stored;

fn obs(key: &'static str, lifetime: KeyLifetime, outcome: KeyOutcome) -> KeyObservation {
    KeyObservation {
        key,
        lifetime,
        outcome,
        role: KeyRole::Plain,
    }
}

fn sibling(outcome: KeyOutcome) -> KeyObservation {
    KeyObservation {
        key: "lockdown filter",
        lifetime: KeyLifetime::Persistent,
        outcome,
        role: KeyRole::BootTimeSibling,
    }
}

const TWIN: &str = "lockdown boot-time block-all V4";

fn twin_not_found() -> KeyObservation {
    obs(TWIN, KeyLifetime::BootTime, KeyOutcome::NotFound)
}

fn twin_removed() -> KeyObservation {
    obs(TWIN, KeyLifetime::BootTime, KeyOutcome::Removed)
}

/// The one file a host keeps the record in.
struct StateDir {
    file: Option<String>,
}

fn dir() -> StateDir {
    StateDir { file: None }
}

impl StateDir {
    fn stored(&self) -> Stored<BootTimeState> {
        let Some(text) = &self.file else {
            return Stored::Missing;
        };
        let Ok(value) = serde_json::from_str::<serde_json::Value>(text) else {
            return Stored::Malformed;
        };
        match (value["version"].as_u64(), value["armed"].as_bool()) {
            (Some(version), Some(armed)) => Stored::Parsed(BootTimeState {
                version: u32::try_from(version).unwrap(),
                armed,
            }),
            _ => Stored::Malformed,
        }
    }

    fn write(&mut self, st: BootTimeState) {
        self.file = Some(format!(r#"{{"version": {}, "armed": {}}}"#, st.version, st.armed));
    }
}

fn load(state: &StateDir) -> ArmingWitness {
    boottime_witness::load(state.stored())
}

fn record_armed(state: &mut StateDir) {
    state.write(boottime_witness::record_armed());
}

fn end_sweep(
    state: &mut StateDir,
    body: impl FnOnce(ArmingWitness) -> SweepOutcome,
) -> Result<Clearance, RoutingError> {
    let witness = load(state);
    let end = sweep_with_witness(witness, body(witness));
    if let Some(armed) = end.record {
        state.write(boottime_witness::record(armed));
    }
    end.result
}

fn sweep(state: &mut StateDir, observations: &[KeyObservation]) -> Clearance {
    end_sweep(state, |witness| {
        SweepOutcome::completed(Clearance::from_observations(observations, witness))
    })
    .expect("the sweep body cannot fail")
}

fn failing_sweep(state: &mut StateDir, observations: &[KeyObservation]) -> RoutingError {
    end_sweep(state, |witness| {
        SweepOutcome::failed(
            Clearance::from_observations(observations, witness),
            RoutingError::RouteSetup("the firewall refused one of the deletes".into()),
        )
    })
    .expect_err("the sweep body failed")
}

#[test]
fn a_sweep_that_consumed_the_sibling_leaves_a_later_one_able_to_report() {
    let mut state = dir();

    let first = sweep(&mut state, &[sibling(KeyOutcome::Removed), twin_not_found()]);
    assert_eq!(first.leftover_keys(), [TWIN]);

    let second = sweep(&mut state, &[sibling(KeyOutcome::NotFound), twin_not_found()]);
    assert_eq!(second.leftover_keys(), [TWIN]);
}

#[test]
fn a_host_that_never_armed_a_twin_stays_silent_across_every_sweep() {
    let mut state = dir();
    for _round in 0..3 {
        let c = sweep(&mut state, &[sibling(KeyOutcome::NotFound), twin_not_found()]);
        assert!(!c.is_proven());
        assert!(c.leftover_keys().is_empty());
    }
    assert_eq!(load(&state), ArmingWitness::Unset);
}

#[test]
fn arming_then_unblocking_in_one_boot_clears_the_record_and_stays_clear() {
    let mut state = dir();
    record_armed(&mut state);

    let off = sweep(&mut state, &[sibling(KeyOutcome::Removed), twin_removed()]);
    assert!(off.leftover_keys().is_empty());
    assert_eq!(load(&state), ArmingWitness::Disarmed);

    let uninstall = sweep(&mut state, &[sibling(KeyOutcome::NotFound), twin_not_found()]);
    assert!(uninstall.leftover_keys().is_empty());
}

#[test]
fn an_uninstall_on_the_boot_that_armed_the_twin_watched_it_go() {
    let mut state = dir();
    record_armed(&mut state);

    let uninstall = sweep(&mut state, &[sibling(KeyOutcome::Removed), twin_removed()]);
    assert!(uninstall.is_proven());
    assert!(uninstall.leftover_keys().is_empty());
    assert_eq!(load(&state), ArmingWitness::Disarmed);
}

#[test]
fn an_empty_sibling_set_never_clears_a_recorded_twin() {
    let mut state = dir();
    record_armed(&mut state);

    for _round in 0..3 {
        let c = sweep(&mut state, &[sibling(KeyOutcome::NotFound), twin_not_found()]);
        assert_eq!(c.leftover_keys(), [TWIN]);
        assert_eq!(load(&state), ArmingWitness::Armed);
    }
}

#[test]
fn the_engage_records_the_twin_before_any_sweep_could_have_seen_it() {
    let mut state = dir();
    record_armed(&mut state);

    let c = sweep(&mut state, &[sibling(KeyOutcome::NotFound), twin_not_found()]);
    assert_eq!(c.leftover_keys(), [TWIN]);
}

#[test]
fn a_failed_sweep_that_already_removed_the_sibling_still_records_what_it_saw() {
    let mut state = dir();
    let err = failing_sweep(
        &mut state,
        &[
            sibling(KeyOutcome::Removed),
            twin_not_found(),
            obs("lockdown app-id filter", KeyLifetime::Persistent, KeyOutcome::Failed),
        ],
    );
    assert!(err.message().contains("refused"));
    assert_eq!(load(&state), ArmingWitness::Armed);

    let uninstall = sweep(&mut state, &[sibling(KeyOutcome::NotFound), twin_not_found()]);
    assert_eq!(uninstall.leftover_keys(), [TWIN]);
}

#[test]
fn a_sweep_that_never_reached_the_firewall_writes_nothing_down() {
    let mut fresh = dir();
    let err = failing_sweep(&mut fresh, &[]);
    assert!(err.message().contains("refused"));
    assert_eq!(load(&fresh), ArmingWitness::Unset);

    let mut armed = dir();
    record_armed(&mut armed);
    let _ = failing_sweep(&mut armed, &[]);
    assert_eq!(load(&armed), ArmingWitness::Armed);
}

#[test]
fn a_record_that_cannot_be_read_reports_rather_than_suppressing() {
    let mut state = dir();
    state.file = Some("{ not json".to_owned());
    assert_eq!(load(&state), ArmingWitness::Unreadable);

    let c = sweep(&mut state, &[sibling(KeyOutcome::NotFound), twin_not_found()]);
    assert_eq!(c.leftover_keys(), [TWIN]);
}

#[test]
fn a_record_at_another_schema_version_reports_rather_than_suppressing() {
    let mut state = dir();
    state.file = Some(r#"{"version": 99, "armed": false}"#.to_owned());
    assert_eq!(load(&state), ArmingWitness::Unreadable);
}

#[test]
fn a_recorded_twin_survives_being_read_back() {
    let mut state = dir();
    assert_eq!(load(&state), ArmingWitness::Unset);
    record_armed(&mut state);
    assert_eq!(load(&state), ArmingWitness::Armed);
}

#[test]
fn every_update_and_record_pair_has_one_write_answer() {
    let table = [
        (ArmingWitness::Armed, WitnessUpdate::Leave, None),
        (ArmingWitness::Disarmed, WitnessUpdate::Leave, None),
        (ArmingWitness::Unset, WitnessUpdate::Leave, None),
        (ArmingWitness::Unreadable, WitnessUpdate::Leave, None),
        (ArmingWitness::Armed, WitnessUpdate::Arm, None),
        (ArmingWitness::Disarmed, WitnessUpdate::Arm, Some(true)),
        (ArmingWitness::Unset, WitnessUpdate::Arm, Some(true)),
        (ArmingWitness::Unreadable, WitnessUpdate::Arm, Some(true)),
        (ArmingWitness::Armed, WitnessUpdate::Disarm, Some(false)),
        (ArmingWitness::Disarmed, WitnessUpdate::Disarm, None),
        (ArmingWitness::Unset, WitnessUpdate::Disarm, None),
        (ArmingWitness::Unreadable, WitnessUpdate::Disarm, Some(false)),
    ];
    for (current, update, want) in table {
        assert_eq!(next_record(current, update), want);
    }
}

#[test]
fn a_host_that_never_armed_a_twin_is_not_littered_by_a_sweep_that_watched_one_go() {
    let mut state = dir();
    let c = sweep(&mut state, &[sibling(KeyOutcome::NotFound), twin_removed()]);
    assert!(c.leftover_keys().is_empty());
    assert_eq!(load(&state), ArmingWitness::Unset);
    assert!(state.file.is_none());
}

#[test]
fn a_record_that_cannot_be_read_is_replaced_by_a_sweep_that_watched_the_twin_go() {
    let mut state = dir();
    state.file = Some("{ not json".to_owned());
    assert_eq!(load(&state), ArmingWitness::Unreadable);

    let c = sweep(&mut state, &[sibling(KeyOutcome::Removed), twin_removed()]);
    assert!(c.leftover_keys().is_empty());
    assert_eq!(load(&state), ArmingWitness::Disarmed);
}

#[test]
fn a_record_that_says_not_armed_is_re_armed_rather_than_left_alone() {
    let mut state = dir();
    state.file = Some(format!(r#"{{"version": {}, "armed": false}}"#, SCHEMA_VERSION));
    assert_eq!(load(&state), ArmingWitness::Disarmed);

    let c = sweep(&mut state, &[sibling(KeyOutcome::Removed), twin_not_found()]);
    assert_eq!(c.leftover_keys(), [TWIN]);
    assert_eq!(load(&state), ArmingWitness::Armed);
}

#[test]
fn a_sweep_carrying_no_boot_time_key_at_all_leaves_the_record_alone() {
    let mut state = dir();
    record_armed(&mut state);

    let c = sweep(&mut state, &[sibling(KeyOutcome::Removed)]);
    assert!(c.is_proven());
    assert_eq!(load(&state), ArmingWitness::Armed);
}

#[test]
fn the_armed_record_reads_back_as_armed() {
    assert_eq!(boottime_witness::record_armed_for_test(), boottime_witness::record(true));
    assert_eq!(
        boottime_witness::load(Stored::Parsed(boottime_witness::record(false))),
        ArmingWitness::Disarmed
    );
    assert_eq!(boottime_witness::load(Stored::ReadFailed), ArmingWitness::Unreadable);
}
