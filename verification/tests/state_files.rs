//! State files: what is written, what is read back, and what a damaged file says.

use serde_json::Value;
use tun_engine::ip::{IpAddr, Ipv4Addr};
use tun_engine::routing::failclosed::failclosed_state;
use tun_engine::routing::failclosed::failclosed_state::FailClosedState;
use tun_engine::routing::failclosed::lockdown_pf_state;
use tun_engine::routing::failclosed::lockdown_pf_state::{LockdownPfRecord, LockdownPfState};
use tun_engine::routing::failclosed::lockdown_state;
use tun_engine::routing::failclosed::lockdown_state::{Intent, LockdownState};
use tun_engine::routing::state;
use tun_engine::routing::state::RouteState;
use tun_engine::routing::state_file::{RemoveFailure, StateFile, Stored};

/// A directory with room for one state file.
#[derive(Default)]
struct StateDir {
    file: Option<String>,
}

impl StateDir {
    fn write(&mut self, text: &str) {
        self.file = Some(text.to_owned());
    }

    fn written(&self) -> bool {
        self.file.is_some()
    }

    fn remove(&mut self) -> Result<(), RemoveFailure> {
        match self.file.take() {
            Some(_) => Ok(()),
            None => Err(RemoveFailure::NotFound),
        }
    }

    /// The file's fields, where none but `known` occurs.
    fn fields(&self, known: &[&str]) -> Stored<serde_json::Map<String, Value>> {
        let Some(text) = &self.file else {
            return Stored::Missing;
        };
        match serde_json::from_str::<Value>(text) {
            Ok(Value::Object(fields)) if fields.keys().all(|k| known.contains(&k.as_str())) => Stored::Parsed(fields),
            _ => Stored::Malformed,
        }
    }
}

fn version(fields: &serde_json::Map<String, Value>) -> Option<u32> {
    u32::try_from(fields.get("version")?.as_u64()?).ok()
}

fn text(fields: &serde_json::Map<String, Value>, name: &str) -> Option<String> {
    Some(fields.get(name)?.as_str()?.to_owned())
}

fn object(fields: &[(&str, Value)]) -> String {
    let map: serde_json::Map<String, Value> = fields.iter().map(|(k, v)| ((*k).to_owned(), v.clone())).collect();
    Value::Object(map).to_string()
}

fn parsed<T>(fields: Stored<serde_json::Map<String, Value>>, read: impl Fn(&serde_json::Map<String, Value>) -> Option<T>) -> Stored<T> {
    match fields {
        Stored::Missing => Stored::Missing,
        Stored::ReadFailed => Stored::ReadFailed,
        Stored::Malformed => Stored::Malformed,
        Stored::Parsed(fields) => match read(&fields) {
            Some(value) => Stored::Parsed(value),
            None => Stored::Malformed,
        },
    }
}

// transient cover -----------------------------------------------------------------

fn save_fc(dir: &mut StateDir, st: &FailClosedState) {
    dir.write(&object(&[
        ("version", Value::from(st.version)),
        ("pf_token", Value::from(st.pf_token.clone())),
        ("pf_was_enabled", Value::from(st.pf_was_enabled)),
    ]));
}

fn stored_fc(dir: &StateDir) -> Stored<FailClosedState> {
    parsed(dir.fields(&["version", "pf_token", "pf_was_enabled"]), |f| {
        Some(FailClosedState {
            version: version(f)?,
            pf_token: text(f, "pf_token")?,
            pf_was_enabled: f.get("pf_was_enabled").and_then(Value::as_bool),
        })
    })
}

#[test]
fn failclosed_state_tests_save_then_load_roundtrips() {
    let mut tmp = StateDir::default();
    let st = FailClosedState {
        version: failclosed_state::SCHEMA_VERSION,
        pf_token: "1234567890".into(),
        pf_was_enabled: Some(true),
    };
    save_fc(&mut tmp, &st);
    assert_eq!(failclosed_state::load(stored_fc(&tmp)), Some(st));
}

#[test]
fn load_reads_an_older_files_bare_bool_pf_was_enabled() {
    for (written, want) in [("true", Some(true)), ("false", Some(false))] {
        let mut tmp = StateDir::default();
        let older = format!(r#"{{"version":1,"pf_token":"5","pf_was_enabled":{written}}}"#);
        tmp.write(&older);
        let read = failclosed_state::load(stored_fc(&tmp));
        assert_eq!(read, Some(FailClosedState { version: 1, pf_token: "5".into(), pf_was_enabled: want }));
    }
}

#[test]
fn failclosed_state_tests_load_absent_is_none() {
    let tmp = StateDir::default();
    assert_eq!(failclosed_state::load(stored_fc(&tmp)), None);
}

#[test]
fn failclosed_state_tests_load_rejects_schema_mismatch() {
    let mut tmp = StateDir::default();
    let st = FailClosedState {
        version: failclosed_state::SCHEMA_VERSION + 1,
        pf_token: "1".into(),
        pf_was_enabled: Some(false),
    };
    save_fc(&mut tmp, &st);
    assert_eq!(failclosed_state::load(stored_fc(&tmp)), None);
}

#[test]
fn failclosed_state_tests_clear_removes_file_and_tolerates_absence() {
    let mut tmp = StateDir::default();
    let st = FailClosedState {
        version: failclosed_state::SCHEMA_VERSION,
        pf_token: "9".into(),
        pf_was_enabled: Some(false),
    };
    save_fc(&mut tmp, &st);
    assert!(tmp.written());
    failclosed_state::clear(tmp.remove()).unwrap();
    assert!(!tmp.written());
    failclosed_state::clear(tmp.remove()).unwrap();
}

// lockdown snapshots --------------------------------------------------------------

fn save_pf(dir: &mut StateDir, st: &LockdownPfState) {
    let record = lockdown_pf_state::save(st.clone());
    let mut fields = vec![
        ("version", Value::from(record.version)),
        ("pf_token", Value::from(record.pf_token)),
        ("main_snapshot", Value::from(record.main_snapshot)),
        ("nat_snapshot", Value::from(record.nat_snapshot)),
    ];
    if let Some(captured) = record.main_snapshot_captured {
        fields.push(("main_snapshot_captured", Value::from(captured)));
    }
    dir.write(&object(&fields));
}

fn stored_pf(dir: &StateDir) -> Stored<LockdownPfRecord> {
    let known = ["version", "pf_token", "main_snapshot", "nat_snapshot", "main_snapshot_captured"];
    parsed(dir.fields(&known), |f| {
        Some(LockdownPfRecord {
            version: version(f)?,
            pf_token: text(f, "pf_token")?,
            main_snapshot: text(f, "main_snapshot")?,
            nat_snapshot: text(f, "nat_snapshot")?,
            main_snapshot_captured: f.get("main_snapshot_captured").and_then(Value::as_bool),
        })
    })
}

fn sample() -> LockdownPfState {
    LockdownPfState {
        version: lockdown_pf_state::SCHEMA_VERSION,
        pf_token: "12345678901234567890".into(),
        main_snapshot: "scrub-anchor \"com.apple/*\" all fragment reassemble\n".into(),
        nat_snapshot: "nat-anchor \"com.apple/*\" all\n".into(),
        main_snapshot_captured: true,
    }
}

#[test]
fn lockdown_pf_state_tests_save_then_load_roundtrips() {
    let mut tmp = StateDir::default();
    save_pf(&mut tmp, &sample());
    assert_eq!(lockdown_pf_state::load(stored_pf(&tmp)), Some(sample()));
}

#[test]
fn roundtrip_preserves_nat_snapshot() {
    let mut tmp = StateDir::default();
    save_pf(&mut tmp, &sample());
    assert_eq!(lockdown_pf_state::load(stored_pf(&tmp)).unwrap().nat_snapshot, sample().nat_snapshot);
}

#[test]
fn lockdown_pf_state_tests_load_absent_is_none() {
    let tmp = StateDir::default();
    assert_eq!(lockdown_pf_state::load(stored_pf(&tmp)), None);
}

#[test]
fn lockdown_pf_state_tests_load_rejects_schema_mismatch() {
    let mut tmp = StateDir::default();
    let mut st = sample();
    st.version = lockdown_pf_state::SCHEMA_VERSION + 1;
    save_pf(&mut tmp, &st);
    assert_eq!(lockdown_pf_state::load(stored_pf(&tmp)), None);
}

#[test]
fn load_rejects_unknown_field() {
    let mut tmp = StateDir::default();
    tmp.write(r#"{"version":1,"pf_token":"x","main_snapshot":"","nat_snapshot":"","stray":true}"#);
    assert_eq!(lockdown_pf_state::load(stored_pf(&tmp)), None);
}

#[test]
fn lockdown_pf_state_tests_clear_removes_file_and_tolerates_absence() {
    let mut tmp = StateDir::default();
    save_pf(&mut tmp, &sample());
    assert!(tmp.written());
    lockdown_pf_state::clear(tmp.remove()).unwrap();
    assert!(!tmp.written());
    lockdown_pf_state::clear(tmp.remove()).unwrap();
}

#[test]
fn state_roundtrips_the_captured_flag() {
    let mut tmp = StateDir::default();
    let mut st = sample();
    st.main_snapshot_captured = false;
    st.main_snapshot = String::new();
    save_pf(&mut tmp, &st);
    assert_eq!(lockdown_pf_state::load(stored_pf(&tmp)), Some(st));
}

#[test]
fn a_file_without_the_flag_reads_as_captured() {
    let mut tmp = StateDir::default();
    tmp.write(r#"{"version":1,"pf_token":"x","main_snapshot":"pass out all\n","nat_snapshot":""}"#);
    let st = lockdown_pf_state::load(stored_pf(&tmp)).expect("a v1 file must still parse");
    assert!(st.main_snapshot_captured);
    assert_eq!(st.main_snapshot, "pass out all\n");
}

// lockdown intent -----------------------------------------------------------------

fn save_ld(dir: &mut StateDir, st: &LockdownState) {
    dir.write(&object(&[
        ("version", Value::from(st.version)),
        ("enabled", Value::from(st.enabled)),
    ]));
}

fn stored_ld(dir: &StateDir) -> Stored<LockdownState> {
    parsed(dir.fields(&["version", "enabled"]), |f| {
        Some(LockdownState {
            version: version(f)?,
            enabled: f.get("enabled")?.as_bool()?,
        })
    })
}

#[test]
fn lockdown_state_tests_save_then_load_roundtrips() {
    let mut tmp = StateDir::default();
    let st = LockdownState {
        version: lockdown_state::SCHEMA_VERSION,
        enabled: true,
    };
    save_ld(&mut tmp, &st);
    assert_eq!(lockdown_state::load(stored_ld(&tmp)), Some(st));
}

#[test]
fn load_absent_is_none_and_load_enabled_is_false() {
    let tmp = StateDir::default();
    assert_eq!(lockdown_state::load(stored_ld(&tmp)), None);
    assert!(!lockdown_state::load_enabled(stored_ld(&tmp)));
}

#[test]
fn lockdown_state_tests_load_rejects_schema_mismatch() {
    let mut tmp = StateDir::default();
    let st = LockdownState {
        version: lockdown_state::SCHEMA_VERSION + 1,
        enabled: true,
    };
    save_ld(&mut tmp, &st);
    assert_eq!(lockdown_state::load(stored_ld(&tmp)), None);
}

#[test]
fn set_enabled_is_last_writer_wins() {
    let mut tmp = StateDir::default();
    save_ld(&mut tmp, &lockdown_state::set_enabled(true));
    assert!(lockdown_state::load_enabled(stored_ld(&tmp)));
    save_ld(&mut tmp, &lockdown_state::set_enabled(false));
    assert!(!lockdown_state::load_enabled(stored_ld(&tmp)));
}

#[test]
fn load_intent_absent_file_is_unset() {
    let tmp = StateDir::default();
    assert_eq!(lockdown_state::load_intent(stored_ld(&tmp)), Intent::Unset);
}

#[test]
fn load_intent_reads_the_persisted_bool() {
    let mut tmp = StateDir::default();
    save_ld(&mut tmp, &lockdown_state::set_enabled(true));
    assert_eq!(lockdown_state::load_intent(stored_ld(&tmp)), Intent::On);
    save_ld(&mut tmp, &lockdown_state::set_enabled(false));
    assert_eq!(lockdown_state::load_intent(stored_ld(&tmp)), Intent::Off);
}

#[test]
fn load_intent_unparseable_file_is_unreadable() {
    let mut tmp = StateDir::default();
    tmp.write("{not json");
    assert_eq!(lockdown_state::load_intent(stored_ld(&tmp)), Intent::Unreadable);
    tmp.write(r#"{"version":1,"enabled":true,"stray":1}"#);
    assert_eq!(lockdown_state::load_intent(stored_ld(&tmp)), Intent::Unreadable);
}

#[test]
fn load_intent_future_schema_is_unreadable() {
    let mut tmp = StateDir::default();
    let st = LockdownState {
        version: lockdown_state::SCHEMA_VERSION + 1,
        enabled: true,
    };
    save_ld(&mut tmp, &st);
    assert_eq!(lockdown_state::load_intent(stored_ld(&tmp)), Intent::Unreadable);
}

#[test]
fn intent_folds_disagree_only_on_unreadable() {
    let table = [
        (Intent::On, true, true),
        (Intent::Off, false, false),
        (Intent::Unset, false, false),
        (Intent::Unreadable, true, false),
    ];
    for (intent, armed, standing) in table {
        assert_eq!(intent.reads_armed(), armed);
        assert_eq!(intent.installs_standing_cover(), standing);
    }
}

#[test]
fn load_enabled_is_the_reads_armed_fold() {
    let mut tmp = StateDir::default();
    assert!(!lockdown_state::load_enabled(stored_ld(&tmp)));
    tmp.write("{not json");
    assert!(lockdown_state::load_enabled(stored_ld(&tmp)));
}

#[test]
fn lockdown_state_tests_clear_removes_file_and_tolerates_absence() {
    let mut tmp = StateDir::default();
    save_ld(&mut tmp, &lockdown_state::set_enabled(true));
    assert!(tmp.written());
    lockdown_state::clear(tmp.remove()).unwrap();
    assert!(!tmp.written());
    lockdown_state::clear(tmp.remove()).unwrap();
}

// all of them ---------------------------------------------------------------------

#[test]
fn a_record_that_cannot_be_understood_is_unusable_and_not_absent() {
    assert!(matches!(failclosed_state::load_presence(Stored::Missing), StateFile::Absent));
    assert!(matches!(failclosed_state::load_presence(Stored::ReadFailed), StateFile::Unusable));
    assert!(matches!(failclosed_state::load_presence(Stored::Malformed), StateFile::Unusable));
    let skewed = FailClosedState {
        version: failclosed_state::SCHEMA_VERSION + 1,
        pf_token: "1".into(),
        pf_was_enabled: None,
    };
    assert!(matches!(
        failclosed_state::load_presence(Stored::Parsed(skewed.clone())),
        StateFile::Unusable
    ));
    assert_eq!(failclosed_state::load(Stored::Parsed(skewed)), None);

    assert!(matches!(lockdown_pf_state::load_presence(Stored::Missing), StateFile::Absent));
    assert!(matches!(lockdown_pf_state::load_presence(Stored::Malformed), StateFile::Unusable));
    match lockdown_pf_state::load_presence(Stored::Parsed(lockdown_pf_state::save(sample()))) {
        StateFile::Present(st) => assert_eq!(st, sample()),
        _ => panic!("a saved record is present"),
    }
}

#[test]
fn an_unreadable_intent_reads_armed_and_installs_nothing() {
    assert_eq!(lockdown_state::read_state(Stored::Missing), Err(Intent::Unset));
    assert_eq!(lockdown_state::read_state(Stored::ReadFailed), Err(Intent::Unreadable));
    assert_eq!(
        lockdown_state::read_state(Stored::Parsed(lockdown_state::set_enabled(true))),
        Ok(LockdownState { version: 1, enabled: true })
    );
    assert!(lockdown_state::load_intent(Stored::ReadFailed).reads_armed());
    assert!(!lockdown_state::load_intent(Stored::ReadFailed).installs_standing_cover());
}

#[test]
fn a_removal_that_fails_for_another_reason_is_an_error() {
    let failed = || Err(RemoveFailure::Other("permission denied".into()));
    assert_eq!(failclosed_state::clear(failed()), Err("permission denied".to_owned()));
    assert_eq!(lockdown_pf_state::clear(failed()), Err("permission denied".to_owned()));
    assert_eq!(lockdown_state::clear(failed()), Err("permission denied".to_owned()));
    assert_eq!(state::clear(failed()), Err("permission denied".to_owned()));
    assert_eq!(state::clear(Err(RemoveFailure::NotFound)), Ok(()));
}

#[test]
fn a_route_record_is_read_at_its_own_version_alone() {
    let st = RouteState {
        version: state::SCHEMA_VERSION,
        tun_name: "hole-tun".into(),
        server_ip: IpAddr::V4(Ipv4Addr::new(203, 0, 113, 7)),
        interface_name: "Wi-Fi".into(),
    };
    assert_eq!(state::load(Stored::Parsed(st.clone())), Some(st.clone()));
    assert_eq!(
        state::load(Stored::Parsed(RouteState {
            version: state::SCHEMA_VERSION + 1,
            ..st
        })),
        None
    );
    assert_eq!(state::load(Stored::Missing), None);
    assert_eq!(state::load(Stored::ReadFailed), None);
    assert_eq!(state::load(Stored::Malformed), None);
}
