//! Engaging the lockdown, taking it down, and the control commands behind the calls.

use tun_engine::error::{CommandOutput, RoutingError};
use tun_engine::ip::{IpAddr, Ipv4Addr};
use tun_engine::routing::failclosed::disengage::{
    disengage, disengage_lockdown_with, lockdown_cover_presence, recover_cover, Restore,
};
use tun_engine::routing::failclosed::engage::{EngageCall, EngageReply};
use tun_engine::routing::failclosed::failclosed_state::FailClosedState;
use tun_engine::routing::failclosed::lockdown::{engage_lockdown, LockdownCall, LockdownReply};
use tun_engine::routing::failclosed::lockdown_pf_state;
use tun_engine::routing::failclosed::lockdown_pf_state::LockdownPfState;
use tun_engine::routing::failclosed::pf_command::{labels_command, PfCommand};
use tun_engine::routing::failclosed::pf_output::{
    enable_pf_capture_token, parse_enable_token, pfctl, pfctl_status, PFCONF, PFCTL,
};
use tun_engine::routing::failclosed::pf_rules::{
    build_lockdown_main_ruleset, build_lockdown_restore_ruleset, build_pf_ruleset,
};
use tun_engine::routing::failclosed::release::PfCall;
use tun_engine::routing::recovery::CoverPresence;
use tun_engine::routing::state_file::{RemoveFailure, Stored};

fn server() -> IpAddr {
    IpAddr::V4(Ipv4Addr::new(203, 0, 113, 7))
}

fn failure(text: &str) -> RoutingError {
    RoutingError::RouteSetup(text.to_owned())
}

fn output(success: bool, stdout: &str, stderr: &str) -> CommandOutput {
    CommandOutput {
        success,
        code: Some(if success { 0 } else { 1 }),
        stdout: stdout.to_owned(),
        stderr: stderr.to_owned(),
    }
}

fn record(captured: bool) -> LockdownPfState {
    LockdownPfState {
        version: lockdown_pf_state::SCHEMA_VERSION,
        pf_token: "old".into(),
        main_snapshot: "pass all\n".into(),
        nat_snapshot: "nat on en0 all -> (en0)\n".into(),
        main_snapshot_captured: captured,
    }
}

/// The answers a host gives while the lockdown is engaged, and what it was asked.
struct Host {
    calls: Vec<LockdownCall>,
    warnings: Vec<&'static str>,
    notices: Vec<&'static str>,
    enabled: Result<bool, RoutingError>,
    standing: Option<LockdownPfState>,
    token: Result<String, RoutingError>,
    presence: CoverPresence,
    filter: Result<String, RoutingError>,
    translation: Result<String, RoutingError>,
    saved: Result<(), String>,
    loaded: Result<(), RoutingError>,
    dropped: Result<(), RoutingError>,
}

fn clean_host() -> Host {
    Host {
        calls: Vec::new(),
        warnings: Vec::new(),
        notices: Vec::new(),
        enabled: Ok(false),
        standing: None,
        token: Ok("77".into()),
        presence: CoverPresence::Absent,
        filter: Ok("pass in all\n".into()),
        translation: Ok("nat-anchor \"com.apple/*\" all\n".into()),
        saved: Ok(()),
        loaded: Ok(()),
        dropped: Ok(()),
    }
}

impl Host {
    fn engage(&mut self) -> Result<String, RoutingError> {
        let mut run = engage_lockdown(server(), "utun4");
        while let Some(call) = run.next() {
            self.notices.extend(run.notice());
            let reply = match &call {
                LockdownCall::PfEnabled => LockdownReply::Enabled(self.enabled.clone()),
                LockdownCall::LoadStanding => LockdownReply::Standing(self.standing.clone()),
                LockdownCall::EnableCaptureToken => LockdownReply::Token(self.token.clone()),
                LockdownCall::Presence => LockdownReply::Presence(self.presence),
                LockdownCall::ShowFilter => LockdownReply::Text(self.filter.clone()),
                LockdownCall::ShowTranslation => LockdownReply::Text(self.translation.clone()),
                LockdownCall::SaveStanding(_) => LockdownReply::Saved(self.saved.clone()),
                LockdownCall::DropToken(_) => {
                    if self.dropped.is_err() {
                        self.warnings.extend(run.warning());
                    }
                    LockdownReply::Done(self.dropped.clone())
                }
                LockdownCall::LoadRuleset(_) => LockdownReply::Done(self.loaded.clone()),
                LockdownCall::Disengage => LockdownReply::Done(Ok(())),
            };
            self.calls.push(call);
            run = run.feed(reply);
        }
        run.finish()
    }
}

#[test]
fn a_first_lockdown_records_the_host_before_it_blocks() {
    let mut host = clean_host();
    assert_eq!(host.engage(), Ok("77".into()));
    assert!(host.notices.is_empty());
    let translation = "nat-anchor \"com.apple/*\" all\n";
    assert_eq!(
        host.calls,
        [
            LockdownCall::PfEnabled,
            LockdownCall::LoadStanding,
            LockdownCall::EnableCaptureToken,
            LockdownCall::Presence,
            LockdownCall::ShowFilter,
            LockdownCall::ShowTranslation,
            LockdownCall::SaveStanding(LockdownPfState {
                version: lockdown_pf_state::SCHEMA_VERSION,
                pf_token: "77".into(),
                main_snapshot: "pass in all\n".into(),
                nat_snapshot: translation.into(),
                main_snapshot_captured: true,
            }),
            LockdownCall::LoadRuleset(build_lockdown_main_ruleset("utun4", server(), translation)),
        ]
    );
}

#[test]
fn a_lockdown_over_its_own_rules_records_no_filter_snapshot() {
    let mut host = Host {
        presence: CoverPresence::Live,
        ..clean_host()
    };
    host.engage().expect("nothing failed");
    assert_eq!(host.notices.len(), 1);
    assert!(host.notices[0].starts_with("a lockdown cover is already loaded"));
    match &host.calls[6] {
        LockdownCall::SaveStanding(st) => {
            assert!(!st.main_snapshot_captured);
            assert_eq!(st.main_snapshot, "");
            assert_eq!(st.nat_snapshot, "nat-anchor \"com.apple/*\" all\n");
        }
        other => panic!("the record comes before the ruleset, not {other:?}"),
    }
}

#[test]
fn a_held_lockdown_is_only_reloaded() {
    let mut host = Host {
        enabled: Ok(true),
        standing: Some(record(true)),
        ..clean_host()
    };
    assert_eq!(host.engage(), Ok("old".into()));
    assert_eq!(
        host.calls,
        [
            LockdownCall::PfEnabled,
            LockdownCall::LoadStanding,
            LockdownCall::LoadRuleset(build_lockdown_main_ruleset("utun4", server(), &record(true).nat_snapshot)),
        ]
    );
}

#[test]
fn a_reenable_keeps_the_snapshots_under_a_new_token() {
    let mut host = Host {
        standing: Some(record(false)),
        ..clean_host()
    };
    assert_eq!(host.engage(), Ok("77".into()));
    assert_eq!(
        host.calls[3],
        LockdownCall::SaveStanding(LockdownPfState {
            pf_token: "77".into(),
            ..record(false)
        })
    );
    assert!(matches!(host.calls[4], LockdownCall::LoadRuleset(_)));
}

#[test]
fn a_failed_lockdown_gives_its_token_back() {
    let broken = [
        Host { filter: Err(failure("pfctl -sr failed: x")), ..clean_host() },
        Host { translation: Err(failure("pfctl -sn failed: x")), ..clean_host() },
        Host { saved: Err("disk full".into()), ..clean_host() },
        Host { saved: Err("disk full".into()), standing: Some(record(true)), ..clean_host() },
    ];
    let want = [
        "pfctl -sr failed: x",
        "pfctl -sn failed: x",
        "failed to persist lockdown-pf-state: disk full",
        "failed to re-persist lockdown-pf-state: disk full",
    ];
    for (mut host, want) in broken.into_iter().zip(want) {
        let err = host.engage().expect_err("a step failed");
        assert_eq!(err.message(), want);
        assert_eq!(host.calls.last(), Some(&LockdownCall::DropToken("77".into())));
        assert!(!host.calls.iter().any(|c| matches!(c, LockdownCall::LoadRuleset(_))));
    }
}

#[test]
fn a_token_that_cannot_be_given_back_is_warned_of() {
    let mut first = Host {
        saved: Err("disk full".into()),
        dropped: Err(failure("pfctl -X failed: x")),
        ..clean_host()
    };
    assert_eq!(
        first.engage().expect_err("the record failed").message(),
        "failed to persist lockdown-pf-state: disk full"
    );
    assert_eq!(first.warnings, ["pfctl -X failed unwinding a failed lockdown engage"]);

    let mut again = Host {
        saved: Err("disk full".into()),
        dropped: Err(failure("pfctl -X failed: x")),
        standing: Some(record(true)),
        ..clean_host()
    };
    again.engage().expect_err("the record failed");
    assert_eq!(again.warnings, ["pfctl -X failed unwinding a failed lockdown re-enable"]);
}

#[test]
fn a_ruleset_that_will_not_load_takes_the_lockdown_down() {
    let mut host = Host {
        loaded: Err(failure("pfctl load failed: syntax error")),
        ..clean_host()
    };
    assert_eq!(
        host.engage().expect_err("the load failed").message(),
        "pfctl load failed: syntax error"
    );
    assert_eq!(host.calls.last(), Some(&LockdownCall::Disengage));
}

#[test]
fn a_lockdown_that_cannot_ask_or_enable_changes_nothing() {
    let mut unasked = Host {
        enabled: Err(failure("pfctl -s info failed: x")),
        ..clean_host()
    };
    assert!(unasked.engage().is_err());
    assert_eq!(unasked.calls, [LockdownCall::PfEnabled]);

    let mut untaken = Host {
        token: Err(failure("pfctl -E returned no token")),
        ..clean_host()
    };
    assert!(untaken.engage().is_err());
    assert_eq!(untaken.calls.last(), Some(&LockdownCall::EnableCaptureToken));
}

fn calls_of_disengage(
    presence: CoverPresence,
    st: Option<LockdownPfState>,
    replies: &[Result<(), RoutingError>],
) -> (Vec<PfCall>, Result<(), RoutingError>) {
    let mut run = disengage_lockdown_with(presence, st);
    let mut calls = Vec::new();
    let mut replies = replies.iter();
    while let Some(call) = run.next() {
        calls.push(call);
        run = run.feed(replies.next().cloned().unwrap_or(Ok(())));
    }
    (calls, run.finish())
}

#[test]
fn a_lockdown_is_down_only_when_restored() {
    let restore = build_lockdown_restore_ruleset(&record(true).nat_snapshot, &record(true).main_snapshot);
    let (calls, result) = calls_of_disengage(CoverPresence::Recorded, Some(record(true)), &[]);
    assert_eq!(
        calls,
        [
            PfCall::LoadRuleset(restore.clone()),
            PfCall::DropToken("old".into()),
            PfCall::ClearStanding,
        ]
    );
    assert_eq!(result, Ok(()));

    let (calls, result) = calls_of_disengage(CoverPresence::Live, Some(record(true)), &[Err(failure("no"))]);
    assert_eq!(calls, [PfCall::LoadRuleset(restore)]);
    assert_eq!(result, Err(failure("no")));

    let (calls, result) = calls_of_disengage(CoverPresence::Live, Some(record(false)), &[Ok(()), Err(failure("no"))]);
    assert_eq!(calls, [PfCall::ReloadDefault, PfCall::DropToken("old".into())]);
    assert_eq!(result, Err(failure("no")));

    let replies = [Ok(()), Ok(()), Err(failure("busy"))];
    let (calls, result) = calls_of_disengage(CoverPresence::Live, Some(record(false)), &replies);
    assert_eq!(calls.last(), Some(&PfCall::ClearStanding));
    assert_eq!(result, Ok(()));
}

#[test]
fn a_presence_is_folded_from_the_label_and_the_record() {
    let ours = || Ok(output(true, "hole-lockdown 0 0 0\n", ""));
    let none = || Ok(output(true, "", ""));
    let unanswered = || Ok(output(false, "hole-lockdown 0 0 0\n", ""));
    let saved = || Stored::Parsed(lockdown_pf_state::save(record(true)));
    assert_eq!(lockdown_cover_presence(ours(), Stored::Missing), CoverPresence::Live);
    assert_eq!(lockdown_cover_presence(none(), saved()), CoverPresence::Recorded);
    assert_eq!(lockdown_cover_presence(none(), Stored::Missing), CoverPresence::Absent);
    assert_eq!(lockdown_cover_presence(unanswered(), Stored::Missing), CoverPresence::Unreachable);
    assert_eq!(lockdown_cover_presence(unanswered(), Stored::ReadFailed), CoverPresence::Recorded);
}

#[test]
fn an_adopting_sweep_keeps_the_ruleset() {
    let st = FailClosedState {
        version: 1,
        pf_token: "42".into(),
        pf_was_enabled: Some(true),
    };
    let restore = recover_cover(Stored::Parsed(st), true).expect("a record is a cover to clear");
    assert_eq!(restore, Restore { token: Some("42".into()), adopting: true });
    let run = disengage(restore);
    assert_eq!(run.next(), Some(PfCall::DropToken("42".into())));
    let run = run.feed(Ok(()));
    assert_eq!(run.next(), Some(PfCall::ClearTransient));
    assert_eq!(run.feed(Ok(())).next(), None);

    assert_eq!(recover_cover(Stored::Missing, false), None);
}

#[test]
fn a_sweep_without_a_token_reloads_and_clears() {
    let run = disengage(Restore { token: None, adopting: false });
    assert_eq!(run.next(), Some(PfCall::ReloadDefault));
    let run = run.feed(Ok(()));
    assert_eq!(run.next(), Some(PfCall::ClearTransient));
    assert_eq!(run.feed(Ok(())).next(), None);
}

fn argv(command: Option<PfCommand>) -> (String, Option<String>) {
    let command = command.expect("the call runs a command");
    assert_eq!(command.argv[0], PFCTL);
    (command.argv[1..].join(" "), command.stdin)
}

#[test]
fn every_call_has_its_own_control_command() {
    assert_eq!(argv(Some(labels_command())), ("-s labels".into(), None));
    assert_eq!(argv(PfCall::ReloadDefault.command()), (format!("-f {PFCONF}"), None));
    assert_eq!(
        argv(PfCall::LoadRuleset("pass all\n".into()).command()),
        ("-f -".into(), Some("pass all\n".into()))
    );
    assert_eq!(argv(PfCall::DropToken("9".into()).command()), ("-X 9".into(), None));
    assert_eq!(PfCall::ClearTransient.command(), None);
    assert_eq!(PfCall::ClearStanding.command(), None);

    assert_eq!(argv(EngageCall::PfEnabled.command()), ("-s info".into(), None));
    assert_eq!(argv(EngageCall::EnableCaptureToken.command()), ("-E".into(), None));
    assert_eq!(argv(EngageCall::FlushStates.command()), ("-F states".into(), None));
    assert_eq!(argv(EngageCall::DropToken("9".into()).command()), ("-X 9".into(), None));
    assert_eq!(
        argv(EngageCall::LoadRuleset("r".into()).command()),
        ("-f -".into(), Some("r".into()))
    );
    assert_eq!(EngageCall::TransientRestore("9".into()).command(), None);

    assert_eq!(argv(LockdownCall::ShowFilter.command()), ("-sr".into(), None));
    assert_eq!(argv(LockdownCall::ShowTranslation.command()), ("-sn".into(), None));
    assert_eq!(argv(LockdownCall::PfEnabled.command()), ("-s info".into(), None));
    assert_eq!(argv(LockdownCall::EnableCaptureToken.command()), ("-E".into(), None));
    assert_eq!(LockdownCall::Presence.command(), None);
    assert_eq!(LockdownCall::Disengage.command(), None);
}

#[test]
fn a_command_answers_the_call_it_was_run_for() {
    let ok = || Ok(output(true, "", ""));
    let bad = || Ok(output(false, "", " pfctl: no \n"));
    assert_eq!(PfCall::ReloadDefault.ran(ok()), Ok(()));
    assert_eq!(
        PfCall::ReloadDefault.ran(bad()),
        Err(failure("pf default-ruleset reload failed: pfctl: no"))
    );
    assert_eq!(
        PfCall::DropToken("9".into()).ran(bad()),
        Err(failure("pfctl -X failed: pfctl: no"))
    );
    assert_eq!(
        PfCall::ClearTransient.cleared(Err(RemoveFailure::Other("busy".into()))),
        Err(failure("failclosed-state clear failed: busy"))
    );
    assert_eq!(PfCall::ClearStanding.cleared(Err(RemoveFailure::NotFound)), Ok(()));

    assert_eq!(
        EngageCall::PfEnabled.ran(Ok(output(true, "Status: Enabled for 1 day\n", ""))),
        EngageReply::Enabled(Ok(true))
    );
    assert_eq!(
        EngageCall::EnableCaptureToken.ran(Ok(output(true, "", "pf enabled\nToken : 5\n"))),
        EngageReply::Token(Ok("5".into()))
    );
    assert_eq!(
        EngageCall::FlushStates.ran(bad()),
        EngageReply::Done(Err(failure("pfctl -F states failed: pfctl: no")))
    );
    assert_eq!(
        EngageCall::saved(Err("disk full".into())),
        EngageReply::Done(Err(failure("failed to persist failclosed-state: disk full")))
    );
    assert_eq!(
        LockdownCall::ShowFilter.ran(Ok(output(true, "pass all\n", ""))),
        LockdownReply::Text(Ok("pass all\n".into()))
    );
    assert_eq!(
        LockdownCall::ShowTranslation.ran(bad()),
        LockdownReply::Text(Err(failure("pfctl -sn failed: pfctl: no")))
    );
    assert_eq!(
        LockdownCall::LoadRuleset("pass all\n".into()).ran(bad()),
        LockdownReply::Done(Err(failure("pfctl load failed: pfctl: no")))
    );
    assert_eq!(
        LockdownCall::DropToken("9".into()).ran(bad()),
        LockdownReply::Done(Err(failure("pfctl -X failed: pfctl: no")))
    );
}

#[test]
fn a_command_that_did_not_start_is_an_error_of_its_own() {
    assert_eq!(pfctl(Ok(output(false, "", ""))), Ok(output(false, "", "")));
    let err = pfctl(Err("No such file or directory".into())).expect_err("it did not start");
    assert_eq!(err.message(), "pfctl spawn failed: No such file or directory");
    assert_eq!(pfctl_status(Err(failure("spawn")), "pfctl -X"), Err(failure("spawn")));
}

#[test]
fn a_token_is_read_from_either_stream() {
    assert_eq!(
        enable_pf_capture_token(Ok(output(true, "Token : 8\n", "pf enabled\n"))),
        Ok("8".into())
    );
    assert_eq!(
        enable_pf_capture_token(Ok(output(true, "Token : 8\n", "Token : 9\n"))),
        Ok("9".into())
    );
    assert_eq!(
        enable_pf_capture_token(Ok(output(true, "", ""))),
        Err(failure("pfctl -E returned no token"))
    );
    assert_eq!(parse_enable_token("Token :   \nToken : 3\n"), None);
}

#[test]
fn the_rulesets_are_exact() {
    let resolver = IpAddr::V4(Ipv4Addr::new(198, 51, 100, 5));
    assert_eq!(
        build_pf_ruleset(server(), Some(resolver)),
        "set block-policy drop\n\
         set skip on lo0\n\
         block out all\n\
         pass out quick on lo0 all no state\n\
         pass in quick on lo0 all no state\n\
         pass out quick from any to 203.0.113.7 no state\n\
         pass out quick proto tcp from any to 198.51.100.5 port 443\n"
    );
    assert_eq!(
        build_lockdown_main_ruleset("utun4", server(), "nat on en0 all -> (en0)"),
        "set block-policy drop\n\
         set skip on lo0\n\
         nat on en0 all -> (en0)\n\
         pass out quick on lo0 all no state\n\
         pass in quick on lo0 all no state\n\
         pass out quick proto tcp from any to 203.0.113.7\n\
         pass out quick on utun4 all\n\
         block drop out quick inet6 all\n\
         block drop out quick all label \"hole-lockdown\"\n"
    );
    assert_eq!(
        build_lockdown_restore_ruleset("nat x", "pass all"),
        "set require-order no\nset block-policy drop\nnat x\npass all"
    );
}

#[test]
fn a_lockdown_gives_back_what_it_found() {
    for presence in [CoverPresence::Absent, CoverPresence::Live] {
        let mut host = Host { presence, ..clean_host() };
        host.engage().expect("nothing failed");
        let LockdownCall::SaveStanding(record) = host.calls[6].clone() else {
            panic!("the record comes before the ruleset");
        };
        let read = lockdown_pf_state::load(Stored::Parsed(lockdown_pf_state::save(record)));
        let (calls, result) = calls_of_disengage(CoverPresence::Recorded, read, &[]);
        let restore = if presence == CoverPresence::Live {
            PfCall::ReloadDefault
        } else {
            PfCall::LoadRuleset(build_lockdown_restore_ruleset(
                "nat-anchor \"com.apple/*\" all\n",
                "pass in all\n",
            ))
        };
        assert_eq!(calls, [restore, PfCall::DropToken("77".into()), PfCall::ClearStanding]);
        assert_eq!(result, Ok(()));
    }
}
