//! Rulesets, the packet filter's own answers, and the order in which covers are
//! engaged, taken down and released.

use tun_engine::error::{CommandOutput, RoutingError};
use tun_engine::ip::{IpAddr, Ipv4Addr, Ipv6Addr};
use tun_engine::routing::failclosed::disengage;
use tun_engine::routing::failclosed::disengage::fold_presence;
use tun_engine::routing::failclosed::engage;
use tun_engine::routing::failclosed::engage::{purges_state, CoverKind, EngageCall, EngageReply, LoadCall};
use tun_engine::routing::failclosed::failclosed_state as state;
use tun_engine::routing::failclosed::lockdown::persist_baseline;
use tun_engine::routing::failclosed::lockdown_pf_state as lockdown_state;
use tun_engine::routing::failclosed::pf_output::{
    engage_pf_action, labels_listing_carries_our_label, parse_enable_token, parse_pf_enabled, pf_label_answer,
    pfctl_cmd, pfctl_stdout, restore_confirmed, PfEngageAction,
};
use tun_engine::routing::failclosed::pf_rules::{
    build_lockdown_main_ruleset, build_lockdown_restore_ruleset, build_pf_ruleset, ensure_trailing_nl,
    LOCKDOWN_PF_LABEL, RESOLVER_PERMIT_PORT,
};
use tun_engine::routing::failclosed::release;
use tun_engine::routing::failclosed::release::PfCall;
use tun_engine::routing::recovery::CoverPresence;
use tun_engine::routing::state_file::{StateFile, Stored};

fn v4() -> IpAddr {
    IpAddr::V4(Ipv4Addr::new(203, 0, 113, 7))
}
fn v6() -> IpAddr {
    IpAddr::V6(Ipv6Addr::new(0x2001, 0xdb8, 0, 0, 0, 0, 0, 1))
}
fn resolver() -> IpAddr {
    IpAddr::V4(Ipv4Addr::new(198, 51, 100, 5))
}
fn resolver_v6() -> IpAddr {
    IpAddr::V6(Ipv6Addr::new(0x2001, 0xdb8, 0, 0, 0, 0, 0, 0xabcd))
}

#[test]
fn ruleset_blocks_all_outbound() {
    let r = build_pf_ruleset(v4(), None);
    assert!(r.contains("block") && r.contains("out") && r.contains("all"));
}

fn assert_stateless_loopback_passes(r: &str) {
    let lo_passes: Vec<&str> = r
        .lines()
        .filter(|l| l.trim_start().starts_with("pass") && l.contains("lo0"))
        .collect();
    for dir in ["out", "in"] {
        let rule = lo_passes
            .iter()
            .find(|l| l.trim_start().starts_with(&format!("pass {dir} ")))
            .unwrap_or_else(|| panic!("no `pass {dir}` rule on lo0:\n{r}"));
        assert!(rule.contains("quick"));
        assert!(rule.contains("no state"));
    }
}

#[test]
fn loopback_is_exempted_twice_over() {
    let r = build_pf_ruleset(v4(), None);
    assert!(r.contains("set skip on lo0"));
    assert_stateless_loopback_passes(&r);
}

#[test]
fn ruleset_passes_server_ip() {
    let r = build_pf_ruleset(v4(), None);
    assert!(r.contains("203.0.113.7"));
}

#[test]
fn ruleset_pass_rules_are_quick() {
    let r = build_pf_ruleset(v4(), None);
    for line in r.lines().filter(|l| l.trim_start().starts_with("pass")) {
        assert!(line.contains("quick"));
    }
}

#[test]
fn ruleset_handles_ipv6_server() {
    let r = build_pf_ruleset(v6(), None);
    assert!(r.contains("2001:db8::1"));
}

#[test]
fn ruleset_passes_resolver_ip_when_given() {
    let r = build_pf_ruleset(v4(), Some(resolver()));
    assert!(r.contains("198.51.100.5"));
}

#[test]
fn ruleset_omits_resolver_when_none() {
    let r = build_pf_ruleset(v4(), None);
    let pass_to_lines: Vec<&str> = r
        .lines()
        .filter(|l| l.trim_start().starts_with("pass out quick") && l.contains(" to "))
        .collect();
    assert_eq!(pass_to_lines.len(), 1);
}

#[test]
fn ruleset_resolver_pass_rule_is_quick() {
    let r = build_pf_ruleset(v4(), Some(resolver()));
    for line in r.lines().filter(|l| l.contains("198.51.100.5")) {
        assert!(line.contains("quick"));
    }
}

#[test]
fn ruleset_handles_ipv6_resolver() {
    let r = build_pf_ruleset(v4(), Some(resolver_v6()));
    assert!(r.contains("2001:db8::abcd"));
}

#[test]
fn ruleset_resolver_pass_is_scoped_to_tcp_443_not_unrestricted() {
    let r = build_pf_ruleset(v4(), Some(resolver()));
    let resolver_line = r
        .lines()
        .find(|l| l.contains("198.51.100.5"))
        .expect("resolver pass rule must exist");
    let port_clause = format!("port {RESOLVER_PERMIT_PORT}");
    assert!(resolver_line.contains("proto tcp") && resolver_line.contains(&port_clause));
    let server_line = r
        .lines()
        .find(|l| l.contains(&v4().to_text()))
        .expect("server pass rule must exist");
    assert!(!server_line.contains("port"));
}

#[test]
fn pfctl_cmd_uses_the_absolute_path() {
    let cmd = pfctl_cmd(&["-X", "12345"]);
    assert_eq!(cmd[0], "/sbin/pfctl");
    assert_eq!(cmd[1..], ["-X", "12345"]);
}

#[test]
fn parse_enable_token_extracts_token() {
    let out = "pf enabled\nToken : 12345678901234567890\n";
    assert_eq!(parse_enable_token(out).as_deref(), Some("12345678901234567890"));
}

#[test]
fn parse_enable_token_none_when_absent() {
    assert_eq!(parse_enable_token("pf already enabled\n"), None);
}

#[test]
fn parse_pf_enabled_reads_status() {
    assert!(parse_pf_enabled("Status: Enabled for 0 days...\n"));
    assert!(!parse_pf_enabled("Status: Disabled\n"));
}

#[test]
fn disengage_lockdown_confirmed_absent_is_ok_and_spawns_no_pfctl() {
    let mut ops = RecordingPfOps::default();
    assert!(disengage_lockdown_with(CoverPresence::Absent, None, &mut ops).is_ok());
    assert!(ops.log.is_empty());
}

#[test]
fn an_absent_state_file_with_a_live_pf_label_still_disengages() {
    let mut ops = RecordingPfOps::default();
    let result = disengage_lockdown_with(CoverPresence::Live, None, &mut ops);
    assert!(result.is_ok());
    assert_eq!(ops.log, vec!["reload_default", "clear_standing"]);
}

#[test]
fn an_indeterminate_presence_reports_doing_nothing() {
    for presence in [CoverPresence::Unreachable, CoverPresence::Indeterminate] {
        let mut ops = RecordingPfOps::default();
        let result = disengage_lockdown_with(presence, None, &mut ops);
        let err = result.expect_err(&format!("{presence:?} must not report success"));
        assert!(err.message().contains("pfctl -f /etc/pf.conf"));
        assert!(ops.log.is_empty());
    }
}

#[test]
fn a_live_presence_with_a_captured_snapshot_restores_it_and_drops_the_token() {
    let mut ops = RecordingPfOps::default();
    let result = disengage_lockdown_with(CoverPresence::Live, Some(standing_state()), &mut ops);
    assert!(result.is_ok());
    assert_eq!(ops.log, vec!["load_ruleset", "drop_token", "clear_standing"]);
}

fn exit_output(code: i32, stdout: &str, stderr: &str) -> CommandOutput {
    CommandOutput {
        success: code == 0,
        code: Some(code),
        stdout: stdout.to_owned(),
        stderr: stderr.to_owned(),
    }
}

#[test]
fn pfctl_stdout_returns_stdout_on_success() {
    let out = pfctl_stdout(Ok(exit_output(0, "block out all\n", "")), "pfctl -sr");
    assert_eq!(out.unwrap(), "block out all\n");
}

#[test]
fn pfctl_stdout_errs_on_nonzero_exit() {
    let err = pfctl_stdout(Ok(exit_output(1, "", "pfctl: permission denied\n")), "pfctl -sr").unwrap_err();
    let rendered = err.message();
    assert!(rendered.contains("pfctl -sr"));
    assert!(rendered.contains("permission denied"));
}

#[test]
fn pfctl_stdout_does_not_surface_stdout_text_from_a_failed_run() {
    let out = pfctl_stdout(Ok(exit_output(1, "stale snapshot text", "")), "pfctl -sn");
    assert!(out.is_err());
}

#[test]
fn engage_action_no_persisted_state_is_fresh_enable() {
    assert_eq!(engage_pf_action(false, false), PfEngageAction::FreshEnable);
    assert_eq!(engage_pf_action(true, false), PfEngageAction::FreshEnable);
}

#[test]
fn engage_action_persisted_but_pf_disabled_reenables() {
    assert_eq!(engage_pf_action(false, true), PfEngageAction::Reenable);
}

#[test]
fn engage_action_persisted_and_pf_enabled_reuses_token() {
    assert_eq!(engage_pf_action(true, true), PfEngageAction::ReuseToken);
}

#[test]
fn ensure_trailing_nl_empty_stays_empty() {
    assert_eq!(ensure_trailing_nl(""), "");
}

#[test]
fn ensure_trailing_nl_adds_missing_newline() {
    assert_eq!(ensure_trailing_nl("nat on en0 from any to any -> (en0)"), "nat on en0 from any to any -> (en0)\n");
}

#[test]
fn ensure_trailing_nl_keeps_single_newline() {
    assert_eq!(ensure_trailing_nl("nat-anchor \"com.apple/*\" all\n"), "nat-anchor \"com.apple/*\" all\n");
}

const TUN_IF: &str = "hole-tun";

fn lockdown(ip: IpAddr, nat: &str) -> String {
    build_lockdown_main_ruleset(TUN_IF, ip, nat)
}

#[test]
fn lockdown_main_has_block_drop_out_quick_all_base() {
    let r = lockdown(v4(), "");
    assert!(r.contains("block drop out quick all"));
}

#[test]
fn lockdown_main_blocks_ipv6() {
    let r = lockdown(v4(), "");
    assert!(r.contains("block drop out quick inet6 all"));
}

#[test]
fn lockdown_main_passes_tun_interface() {
    let r = lockdown(v4(), "");
    assert!(r.contains("pass out quick on hole-tun all"));
}

#[test]
fn lockdown_main_passes_server_ip_over_tcp() {
    let r = lockdown(v4(), "");
    assert!(r.contains("pass out quick proto tcp from any to 203.0.113.7"));
}

#[test]
fn lockdown_main_exempts_loopback_twice_over() {
    let r = lockdown(v4(), "");
    assert!(r.contains("set skip on lo0"));
    assert_stateless_loopback_passes(&r);
}

#[test]
fn lockdown_main_passes_loopback_before_it_blocks_inet6() {
    let r = lockdown(v4(), "");
    let lo = r.find("pass out quick on lo0").expect("lo0 pass out rule");
    let inet6 = r.find("block drop out quick inet6 all").expect("inet6 block");
    assert!(lo < inet6);
}

#[test]
fn lockdown_main_every_filter_rule_is_quick() {
    let r = lockdown(v4(), "nat-anchor \"com.apple/*\" all\n");
    for line in r.lines().filter(|l| {
        let t = l.trim_start();
        t.starts_with("pass") || t.starts_with("block")
    }) {
        assert!(line.contains("quick"));
    }
}

#[test]
fn lockdown_main_set_options_lead() {
    let r = lockdown(v4(), "");
    assert!(r.starts_with("set block-policy drop\n"));
    assert!(r.contains("set skip on lo0\n"));
}

#[test]
fn lockdown_main_no_set_after_first_filter_rule() {
    let r = lockdown(v4(), "nat-anchor \"com.apple/*\" all\n");
    let first_filter = r
        .find("pass")
        .or_else(|| r.find("block"))
        .expect("a filter rule must exist");
    assert!(!r[first_filter..].contains("set "));
}

#[test]
fn lockdown_main_nat_precedes_filter() {
    let nat = "nat on en0 from any to any -> (en0)\n";
    let r = lockdown(v4(), nat);
    let nat_at = r.find("nat on en0").expect("nat must appear");
    let first_filter = r.find("block drop out quick inet6 all").expect("filter must appear");
    assert!(nat_at < first_filter);
}

#[test]
fn lockdown_main_empty_nat_has_no_blank_line() {
    let r = lockdown(v4(), "");
    assert!(!r.contains("\n\n"));
}

#[test]
fn lockdown_main_carries_nat_verbatim() {
    let nat = "nat-anchor \"com.apple/*\" all\nrdr-anchor \"com.apple/*\" all\n";
    let r = lockdown(v4(), nat);
    assert!(r.contains(nat));
}

#[test]
fn lockdown_main_v6_server_permit_precedes_inet6_block() {
    let r = lockdown(v6(), "");
    let permit_at = r.find("to 2001:db8::1").expect("v6 server permit must appear");
    let block_at = r
        .find("block drop out quick inet6 all")
        .expect("inet6 block must appear");
    assert!(permit_at < block_at);
}

const FILTER_SNAP: &str = "scrub-anchor \"com.apple/*\" all fragment reassemble\nanchor \"com.apple/*\" all\n";
const NAT_SNAP: &str = "nat-anchor \"com.apple/*\" all\nrdr-anchor \"com.apple/*\" all\n";

#[test]
fn restore_disables_require_order() {
    let r = build_lockdown_restore_ruleset(NAT_SNAP, FILTER_SNAP);
    assert!(r.contains("set require-order no"));
}

#[test]
fn restore_require_order_leads() {
    let r = build_lockdown_restore_ruleset(NAT_SNAP, FILTER_SNAP);
    assert!(r.starts_with("set require-order no\n"));
}

#[test]
fn restore_carries_both_snapshots_verbatim() {
    let r = build_lockdown_restore_ruleset(NAT_SNAP, FILTER_SNAP);
    assert!(r.contains(NAT_SNAP));
    assert!(r.contains(FILTER_SNAP));
}

#[test]
fn restore_empty_nat_has_no_blank_line() {
    let r = build_lockdown_restore_ruleset("", FILTER_SNAP);
    assert!(!r.contains("\n\n"));
}

fn output_with_status(code: i32) -> Result<CommandOutput, RoutingError> {
    Ok(exit_output(code, "", ""))
}

#[test]
fn release_all_restore_confirmed_requires_a_successful_exit_status() {
    assert!(restore_confirmed(true, &output_with_status(0)));
    assert!(restore_confirmed(true, &Err(RoutingError::RouteSetup("unused".into()))));

    assert!(restore_confirmed(false, &output_with_status(0)));
    assert!(!restore_confirmed(false, &output_with_status(1)));
    assert!(!restore_confirmed( false, &Err(RoutingError::RouteSetup("spawn failed".into())) ));
}

#[derive(Default)]
struct RecordingRecoverOps {
    restores: Vec<(Option<String>, bool)>,
}

fn recover_cover_with(file: StateFile<state::FailClosedState>, adopting: bool, ops: &mut RecordingRecoverOps) {
    if let Some(restore) = disengage::recover_cover_with(file, adopting) {
        ops.restores.push((restore.token, restore.adopting));
    }
}

fn unknown_pf_cover(token: &str) -> state::FailClosedState {
    state::FailClosedState {
        version: state::SCHEMA_VERSION,
        pf_token: token.to_owned(),
        pf_was_enabled: None,
    }
}

#[test]
fn recover_cover_with_no_state_file_does_nothing() {
    let mut ops = RecordingRecoverOps::default();
    recover_cover_with(StateFile::Absent, false, &mut ops);
    assert!(ops.restores.is_empty());
}

#[test]
fn recover_cover_with_a_recorded_cover_restores_and_drops_its_token() {
    let mut ops = RecordingRecoverOps::default();
    recover_cover_with(StateFile::Present(unknown_pf_cover("42")), true, &mut ops);
    assert_eq!(ops.restores, vec![(Some("42".to_owned()), true)]);
}

#[test]
fn recover_cover_with_an_unreadable_state_file_still_restores_the_host() {
    let mut ops = RecordingRecoverOps::default();
    recover_cover_with(StateFile::Unusable, false, &mut ops);
    assert_eq!(ops.restores, vec![(None, false)]);
}

#[test]
fn a_null_pf_was_enabled_is_unreadable_to_a_bool_schema_and_reads_as_a_cover() {
    let st = unknown_pf_cover("7");
    let mut fields = serde_json::Map::new();
    fields.insert("version".to_owned(), serde_json::Value::from(st.version));
    fields.insert("pf_token".to_owned(), serde_json::Value::from(st.pf_token));
    fields.insert("pf_was_enabled".to_owned(), serde_json::Value::from(st.pf_was_enabled));
    let bytes = serde_json::to_vec(&serde_json::Value::Object(fields)).unwrap();

    let read: serde_json::Value = serde_json::from_slice(&bytes).unwrap();
    assert!(read["pf_was_enabled"].as_bool().is_none());

    let file = state::load_presence(Stored::Malformed);
    let mut ops = RecordingRecoverOps::default();
    recover_cover_with(file, false, &mut ops);
    assert_eq!(ops.restores, vec![(None, false)]);
}

#[derive(Default)]
struct RecordingEngageOps {
    log: Vec<&'static str>,
    pf_enabled: bool,
    token: String,
    dropped: Vec<String>,
    restored: Vec<String>,
    saved: Vec<state::FailClosedState>,
    warnings: Vec<&'static str>,
    fail_pf_enabled: bool,
    fail_enable_capture_token: bool,
    fail_save_transient: bool,
    fail_load_ruleset: bool,
    fail_flush_states: bool,
    fail_drop_token: bool,
}

fn answer(failed: bool, what: &str) -> Result<(), RoutingError> {
    if failed {
        Err(RoutingError::RouteSetup(format!("mock {what} failure")))
    } else {
        Ok(())
    }
}

impl RecordingEngageOps {
    fn reply(&mut self, call: &EngageCall) -> EngageReply {
        match call {
            EngageCall::PfEnabled => {
                self.log.push("pf_enabled");
                EngageReply::Enabled(answer(self.fail_pf_enabled, "pf_enabled").map(|()| self.pf_enabled))
            }
            EngageCall::EnableCaptureToken => {
                self.log.push("enable_capture_token");
                EngageReply::Token(
                    answer(self.fail_enable_capture_token, "enable_capture_token").map(|()| self.token.clone()),
                )
            }
            EngageCall::SaveTransient(st) => {
                self.log.push("save_transient");
                self.saved.push(st.clone());
                EngageReply::Done(answer(self.fail_save_transient, "save_transient"))
            }
            EngageCall::LoadRuleset(_) => {
                self.log.push("load_ruleset");
                EngageReply::Done(answer(self.fail_load_ruleset, "load_ruleset"))
            }
            EngageCall::FlushStates => {
                self.log.push("flush_states");
                EngageReply::Done(answer(self.fail_flush_states, "flush_states"))
            }
            EngageCall::DropToken(token) => {
                self.log.push("drop_token");
                self.dropped.push(token.clone());
                EngageReply::Done(answer(self.fail_drop_token, "drop_token"))
            }
            EngageCall::TransientRestore(token) => {
                self.log.push("transient_restore");
                self.restored.push(token.clone());
                EngageReply::Done(Ok(()))
            }
        }
    }
}

fn engage_with(
    server_ip: IpAddr,
    resolver_ip: Option<IpAddr>,
    ops: &mut RecordingEngageOps,
) -> Result<String, RoutingError> {
    let mut run = engage::engage_with(server_ip, resolver_ip);
    while let Some(call) = run.next() {
        let reply = ops.reply(&call);
        let failed = matches!(
            reply,
            EngageReply::Enabled(Err(_)) | EngageReply::Token(Err(_)) | EngageReply::Done(Err(_))
        );
        if failed {
            ops.warnings.extend(run.warning());
        }
        run = run.feed(reply);
    }
    run.finish()
}

fn load_cover_ruleset(kind: CoverKind, text: &str, ops: &mut RecordingEngageOps) -> Result<(), RoutingError> {
    let mut run = engage::load_cover_ruleset(kind, text.to_owned());
    while let Some(call) = run.next() {
        let reply = match call {
            LoadCall::LoadRuleset(loaded) => {
                assert_eq!(loaded, text);
                ops.log.push("load_ruleset");
                answer(ops.fail_load_ruleset, "load_ruleset")
            }
            LoadCall::FlushStates => {
                ops.log.push("flush_states");
                answer(ops.fail_flush_states, "flush_states")
            }
        };
        run = run.feed(reply);
    }
    run.finish()
}

fn recording_engage_ops() -> RecordingEngageOps {
    RecordingEngageOps {
        token: "424242".into(),
        ..Default::default()
    }
}

#[test]
fn the_state_purge_is_decided_per_cover_kind() {
    assert!(purges_state(CoverKind::Transient));
    assert!(!purges_state(CoverKind::Lockdown));
}

#[test]
fn a_transient_engage_purges_pf_state_after_loading_its_ruleset() {
    let mut ops = recording_engage_ops();
    let token = engage_with(v4(), None, &mut ops).expect("engage_with");

    assert_eq!(token, "424242");
    assert_eq!(ops.log, vec![ "pf_enabled", "enable_capture_token", "save_transient", "load_ruleset", "flush_states", ]);
}

#[test]
fn a_lockdown_engage_loads_its_ruleset_without_purging_pf_state() {
    let mut ops = recording_engage_ops();
    load_cover_ruleset(CoverKind::Lockdown, "block drop out quick all\n", &mut ops).expect("load");
    assert_eq!(ops.log, vec!["load_ruleset"]);
}

#[test]
fn a_failed_ruleset_load_never_purges_pf_state() {
    let mut ops = RecordingEngageOps {
        fail_load_ruleset: true,
        ..recording_engage_ops()
    };
    let err = engage_with(v4(), None, &mut ops).expect_err("a failed load must fail the engage");
    assert!(err.message().contains("load_ruleset"));
    assert!(!ops.log.contains(&"flush_states"));
    assert_eq!(ops.restored, vec!["424242".to_string()]);
}

#[test]
fn a_failed_state_purge_does_not_fail_the_engage() {
    let mut ops = RecordingEngageOps {
        fail_flush_states: true,
        ..recording_engage_ops()
    };
    let result = engage_with(v4(), None, &mut ops);
    assert!(result.is_ok());
    assert!(ops.restored.is_empty());
}

#[test]
fn a_failed_persist_unwinds_the_pf_enable_refcount() {
    let mut ops = RecordingEngageOps {
        fail_save_transient: true,
        ..recording_engage_ops()
    };
    let err = engage_with(v4(), None, &mut ops).expect_err("a failed persist must fail the engage");
    assert!(err.message().contains("save_transient"));
    assert_eq!(ops.dropped, vec!["424242".to_string()]);
    assert!(!ops.log.contains(&"load_ruleset"));
}

#[test]
fn a_failed_unwind_of_a_failed_persist_still_returns_the_original_error_and_logs() {
    let mut ops = RecordingEngageOps {
        fail_save_transient: true,
        fail_drop_token: true,
        ..recording_engage_ops()
    };
    let err = engage_with(v4(), None, &mut ops).expect_err("a failed persist must fail the engage");
    assert!(err.message().contains("save_transient"));
    assert!(ops
        .warnings
        .iter()
        .any(|w| w.contains("pfctl -X failed unwinding a failed transient engage")));
}

#[test]
fn a_failed_pf_enabled_read_records_unknown_and_still_engages() {
    let mut ops = RecordingEngageOps {
        fail_pf_enabled: true,
        ..recording_engage_ops()
    };
    let token = engage_with(v4(), None, &mut ops).expect("a diagnostic read must not fail the engage");

    assert_eq!(token, "424242");
    assert_eq!(ops.log, vec![ "pf_enabled", "enable_capture_token", "save_transient", "load_ruleset", "flush_states", ]);
    assert_eq!(ops.saved.iter().map(|st| st.pf_was_enabled).collect::<Vec<_>>(), vec![None]);
    assert!(ops.dropped.is_empty());
}

#[test]
fn a_successful_pf_enabled_read_is_recorded_as_read() {
    let mut ops = RecordingEngageOps {
        pf_enabled: true,
        ..recording_engage_ops()
    };
    engage_with(v4(), None, &mut ops).expect("engage_with");
    assert_eq!(ops.saved.iter().map(|st| st.pf_was_enabled).collect::<Vec<_>>(), vec![Some(true)]);
}

#[test]
fn a_failed_enable_capture_token_fails_the_engage_without_a_spurious_unwind() {
    let mut ops = RecordingEngageOps {
        fail_enable_capture_token: true,
        ..recording_engage_ops()
    };
    let err = engage_with(v4(), None, &mut ops).expect_err("a failed enable_capture_token must fail the engage");
    assert!(err.message().contains("enable_capture_token"));
    assert_eq!(ops.log, vec!["pf_enabled", "enable_capture_token"]);
    assert!(ops.dropped.is_empty());
}

#[test]
fn drop_refcount_or_warn_logs_a_pfctl_x_that_spawned_but_exited_non_zero() {
    let mut run = disengage::disengage(disengage::Restore {
        token: Some("not-a-real-token".to_owned()),
        adopting: true,
    });
    let mut warnings = Vec::new();
    while let Some(call) = run.next() {
        let reply = match call.command() {
            Some(command) => {
                assert_eq!(command.argv, ["/sbin/pfctl", "-X", "not-a-real-token"]);
                call.ran(Ok(exit_output(1, "", "pfctl: Invalid token value 'not-a-real-token'\n")))
            }
            None => call.cleared(Ok(())),
        };
        if reply.is_err() {
            warnings.extend(run.warning(true));
        }
        run = run.feed(reply);
    }
    assert_eq!(warnings, ["pfctl -X failed during cover disengage"]);
}

#[derive(Default)]
struct RecordingPfOps {
    log: Vec<&'static str>,
    fail_reload_default: bool,
    fail_load_ruleset: bool,
    fail_clear_transient: bool,
    fail_clear_standing: bool,
    fail_drop_token: bool,
    warnings: Vec<&'static str>,
}

impl RecordingPfOps {
    fn reply(&mut self, call: &PfCall) -> Result<(), RoutingError> {
        let (name, failed) = match call {
            PfCall::ReloadDefault => ("reload_default", self.fail_reload_default),
            PfCall::LoadRuleset(_) => ("load_ruleset", self.fail_load_ruleset),
            PfCall::DropToken(_) => ("drop_token", self.fail_drop_token),
            PfCall::ClearTransient => ("clear_transient", self.fail_clear_transient),
            PfCall::ClearStanding => ("clear_standing", self.fail_clear_standing),
        };
        self.log.push(name);
        answer(failed, name)
    }
}

fn release_all_with(
    transient: StateFile<state::FailClosedState>,
    standing: StateFile<lockdown_state::LockdownPfState>,
    ops: &mut RecordingPfOps,
) -> Result<(), RoutingError> {
    let mut run = release::release_all_with(transient, standing);
    while let Some(call) = run.next() {
        let reply = ops.reply(&call);
        if reply.is_err() {
            ops.warnings.extend(run.warning());
        }
        run = run.feed(reply);
    }
    run.finish()
}

fn disengage_lockdown_with(
    presence: CoverPresence,
    st: Option<lockdown_state::LockdownPfState>,
    ops: &mut RecordingPfOps,
) -> Result<(), RoutingError> {
    let mut run = disengage::disengage_lockdown_with(presence, st);
    while let Some(call) = run.next() {
        let reply = ops.reply(&call);
        if reply.is_err() {
            ops.warnings.extend(run.warning());
        }
        run = run.feed(reply);
    }
    run.finish()
}

fn transient_state() -> state::FailClosedState {
    state::FailClosedState {
        version: state::SCHEMA_VERSION,
        pf_token: "111".into(),
        pf_was_enabled: Some(false),
    }
}

fn standing_state() -> lockdown_state::LockdownPfState {
    lockdown_state::LockdownPfState {
        version: lockdown_state::SCHEMA_VERSION,
        pf_token: "222".into(),
        main_snapshot: String::new(),
        nat_snapshot: String::new(),
        main_snapshot_captured: true,
    }
}

#[test]
fn release_all_attempts_the_standing_cover_after_a_transient_failure() {
    let mut ops = RecordingPfOps {
        fail_reload_default: true,
        ..Default::default()
    };
    let result = release_all_with(
        StateFile::Present(transient_state()),
        StateFile::Present(standing_state()),
        &mut ops,
    );
    assert!(ops.log.contains(&"load_ruleset"));
    assert!(result.is_err());
}

#[test]
fn release_all_keeps_the_transient_state_file_when_the_restore_fails() {
    let mut ops = RecordingPfOps {
        fail_reload_default: true,
        ..Default::default()
    };
    let _ = release_all_with(StateFile::Present(transient_state()), StateFile::Absent, &mut ops);
    assert!(!ops.log.contains(&"clear_transient"));
}

#[test]
fn release_all_keeps_the_standing_state_file_when_restore_and_fallback_both_fail() {
    let mut ops = RecordingPfOps {
        fail_load_ruleset: true,
        fail_reload_default: true,
        ..Default::default()
    };
    let result = release_all_with(StateFile::Absent, StateFile::Present(standing_state()), &mut ops);
    assert!(!ops.log.contains(&"clear_standing"));
    assert!(result.is_err());
}

#[test]
fn release_all_falls_back_to_the_default_ruleset_when_the_snapshot_will_not_load() {
    let mut ops = RecordingPfOps {
        fail_load_ruleset: true,
        ..Default::default()
    };
    let result = release_all_with(StateFile::Absent, StateFile::Present(standing_state()), &mut ops);
    assert!(result.is_ok());
    assert!(ops.log.contains(&"clear_standing"));
}

#[test]
fn release_all_treats_an_unusable_state_file_as_a_cover_to_clear() {
    let mut ops = RecordingPfOps::default();
    let _ = release_all_with(StateFile::Absent, StateFile::Unusable, &mut ops);
    assert!(ops.log.contains(&"reload_default"));
}

#[test]
fn release_all_touches_nothing_when_both_state_files_are_absent() {
    let mut ops = RecordingPfOps::default();
    let result = release_all_with(StateFile::Absent, StateFile::Absent, &mut ops);
    assert!(ops.log.is_empty());
    assert!(result.is_ok());
}

#[test]
fn release_all_treats_an_unusable_transient_state_file_as_a_cover_to_clear() {
    let mut ops = RecordingPfOps::default();
    let result = release_all_with(StateFile::Unusable, StateFile::Absent, &mut ops);
    assert!(ops.log.contains(&"reload_default"));
    assert!(ops.log.contains(&"clear_transient"));
    assert!(result.is_ok());
}

#[test]
fn release_all_clears_both_covers_end_to_end_on_a_clean_run() {
    let mut ops = RecordingPfOps::default();
    let result = release_all_with(
        StateFile::Present(transient_state()),
        StateFile::Present(standing_state()),
        &mut ops,
    );
    assert!(result.is_ok());
    assert_eq!(ops.log, vec![ "reload_default", "drop_token", "clear_transient", "load_ruleset", "drop_token", "clear_standing", ]);
}

#[test]
fn release_all_logs_a_swallowed_transient_clear_failure_but_still_reports_ok() {
    let mut ops = RecordingPfOps {
        fail_clear_transient: true,
        ..Default::default()
    };
    let result = release_all_with(StateFile::Present(transient_state()), StateFile::Absent, &mut ops);
    assert!(result.is_ok());
    assert!(ops.log.contains(&"clear_transient"));
}

#[test]
fn release_all_logs_a_swallowed_standing_clear_failure_but_still_reports_ok() {
    let mut ops = RecordingPfOps {
        fail_clear_standing: true,
        ..Default::default()
    };
    let result = release_all_with(StateFile::Absent, StateFile::Present(standing_state()), &mut ops);
    assert!(result.is_ok());
    assert!(ops.log.contains(&"clear_standing"));
}

#[test]
fn release_all_logs_every_failed_token_drop_instead_of_discarding_it() {
    let mut both = RecordingPfOps {
        fail_drop_token: true,
        ..Default::default()
    };
    let _ = release_all_with(
        StateFile::Present(transient_state()),
        StateFile::Present(standing_state()),
        &mut both,
    );
    let mut uncaptured = RecordingPfOps {
        fail_drop_token: true,
        ..Default::default()
    };
    let _ = release_all_with(
        StateFile::Absent,
        StateFile::Present(lockdown_state::LockdownPfState {
            main_snapshot_captured: false,
            ..standing_state()
        }),
        &mut uncaptured,
    );
    let log: Vec<&str> = both.warnings.into_iter().chain(uncaptured.warnings).collect();
    for site in [
        "pfctl -X failed releasing the transient cover's pf refcount during release_all",
        "pfctl -X failed releasing the standing cover's pf refcount during release_all after a snapshot restore",
        "pfctl -X failed releasing the standing cover's pf refcount during release_all after a default-ruleset restore",
    ] {
        assert!(log.contains(&site));
    }
}

#[test]
fn presence_fold_is_closed_over_the_probe_and_the_state_file() {
    let cases: [(Option<bool>, StateFile<lockdown_state::LockdownPfState>, CoverPresence); 9] = [
        (Some(true), StateFile::Absent, CoverPresence::Live),
        (Some(true), StateFile::Present(standing_state()), CoverPresence::Live),
        (Some(true), StateFile::Unusable, CoverPresence::Live),
        (Some(false), StateFile::Absent, CoverPresence::Absent),
        (
            Some(false),
            StateFile::Present(standing_state()),
            CoverPresence::Recorded,
        ),
        (Some(false), StateFile::Unusable, CoverPresence::Recorded),
        (None, StateFile::Absent, CoverPresence::Unreachable),
        (None, StateFile::Present(standing_state()), CoverPresence::Recorded),
        (None, StateFile::Unusable, CoverPresence::Recorded),
    ];
    for (label, file, expected) in cases {
        assert_eq!(fold_presence(label, &file), expected);
    }
}

#[test]
fn file_only_presence_never_reports_live() {
    for file in [
        StateFile::Absent,
        StateFile::Present(standing_state()),
        StateFile::Unusable,
    ] {
        assert_ne!(fold_presence(None, &file), CoverPresence::Live);
    }
}

#[test]
fn lockdown_ruleset_labels_its_block_all_rule() {
    let r = build_lockdown_main_ruleset("utun4", v4(), "");
    let labelled: Vec<&str> = r.lines().filter(|l| l.contains("label")).collect();
    assert_eq!(labelled.len(), 1);
    let line = labelled[0];
    assert!(line.trim() == format!("block drop out quick all label \"{LOCKDOWN_PF_LABEL}\""));
    assert_eq!(r.lines().rfind(|l| !l.trim().is_empty()).map(str::trim), Some(line.trim()));
}

#[test]
fn lockdown_restore_ruleset_never_carries_our_label() {
    let r = build_lockdown_restore_ruleset("nat-anchor \"com.apple/*\" all\n", "pass out all\n");
    assert!(!r.contains(LOCKDOWN_PF_LABEL));
}

#[test]
fn labels_listing_matcher_is_anchored_to_the_first_field() {
    assert!(labels_listing_carries_our_label(&format!( "{LOCKDOWN_PF_LABEL} 0 0 0 0 0 0 0 0\n" )));
    assert!(!labels_listing_carries_our_label(""));
    assert!(!labels_listing_carries_our_label("com.apple.internet-sharing 0 0 0 0\n"));
    assert!(!labels_listing_carries_our_label(&format!("{LOCKDOWN_PF_LABEL}-staging 0 0 0 0\n")));
    assert!(!labels_listing_carries_our_label(&format!("someone-else {LOCKDOWN_PF_LABEL} 0 0\n")));
}

#[test]
fn pf_label_answer_maps_a_failed_pfctl_to_none() {
    assert_eq!(pf_label_answer(Err(RoutingError::RouteSetup("pfctl spawn failed".into()))), None);
    assert_eq!(pf_label_answer(output_with_status(1)), None);

    let mut ok = output_with_status(0).unwrap();
    ok.stdout = format!("{LOCKDOWN_PF_LABEL} 0 0 0 0\n");
    assert_eq!(pf_label_answer(Ok(ok)), Some(true));

    let mut clean = output_with_status(0).unwrap();
    clean.stdout = "com.apple.something 0 0\n".to_owned();
    assert_eq!(pf_label_answer(Ok(clean)), Some(false));
}

#[test]
fn self_capture_persists_no_baseline_but_keeps_the_nat_rules() {
    let nat = "nat on en0 from any to any -> (en0)\n";
    let returned = persist_baseline(
        "tok",
        CoverPresence::Live,
        "block drop out quick all label \"hole-lockdown\"\n".into(),
        nat.into(),
    );

    assert_eq!(returned.nat_snapshot, nat);
    let st = lockdown_state::load(Stored::Parsed(lockdown_state::save(returned))).expect("state must be persisted");
    assert!(!st.main_snapshot_captured);
    assert!(st.main_snapshot.is_empty());
    assert_eq!(st.nat_snapshot, nat);
}

#[test]
fn a_measured_clean_host_captures_its_baseline() {
    let main = "scrub-anchor \"com.apple/*\" all fragment reassemble\n";
    let nat = "nat-anchor \"com.apple/*\" all\n";
    let returned = persist_baseline("tok", CoverPresence::Absent, main.into(), nat.into());

    let st = lockdown_state::load(Stored::Parsed(lockdown_state::save(returned))).unwrap();
    assert!(st.main_snapshot_captured);
    assert_eq!(st.main_snapshot, main);
    assert_eq!(st.nat_snapshot, nat);
}

#[test]
fn an_uncaptured_baseline_restores_the_default_ruleset() {
    let mut st = standing_state();
    st.main_snapshot_captured = false;
    st.main_snapshot = String::new();
    let mut ops = RecordingPfOps::default();
    release_all_with(StateFile::Absent, StateFile::Present(st), &mut ops).unwrap();

    assert!(ops.log.contains(&"reload_default"));
    assert!(!ops.log.contains(&"load_ruleset"));
    assert!(ops.log.contains(&"clear_standing"));
}

#[test]
fn an_empty_but_captured_baseline_still_restores_the_snapshot() {
    let mut st = standing_state();
    st.main_snapshot = String::new();
    assert!(st.main_snapshot_captured);
    let mut ops = RecordingPfOps::default();
    release_all_with(StateFile::Absent, StateFile::Present(st), &mut ops).unwrap();

    assert!(ops.log.contains(&"load_ruleset"));
}

#[test]
fn a_release_drops_the_token_that_an_engage_recorded() {
    let mut ops = recording_engage_ops();
    engage_with(v4(), Some(resolver()), &mut ops).expect("engage_with");
    let record = ops.saved[0].clone();
    assert_eq!(record.pf_token, "424242");

    let file = state::load_presence(Stored::Parsed(record));
    let mut run = release::release_all_with(file, StateFile::Absent);
    let mut calls = Vec::new();
    while let Some(call) = run.next() {
        calls.push(call);
        run = run.feed(Ok(()));
    }
    assert_eq!(
        calls,
        [
            PfCall::ReloadDefault,
            PfCall::DropToken("424242".into()),
            PfCall::ClearTransient,
        ]
    );
}

#[test]
fn release_all_says_what_it_could_not_use() {
    let notices = |transient, standing, replies: &[bool]| {
        let mut run = release::release_all_with(transient, standing);
        let mut said = Vec::new();
        let mut replies = replies.iter();
        while run.next().is_some() {
            said.extend(run.notice().map(|n| n.split(';').next().unwrap()));
            run = run.feed(answer(!replies.next().unwrap_or(&true), "step"));
        }
        said
    };
    assert_eq!(
        notices(StateFile::Unusable, StateFile::Unusable, &[]),
        [
            "transient failclosed-state file is unusable",
            "standing lockdown-pf-state file is unusable",
        ]
    );
    assert_eq!(
        notices(StateFile::Absent, StateFile::Present(standing_state()), &[false, true]),
        ["captured pf snapshot could not load"]
    );
    let none: [&str; 0] = [];
    assert_eq!(
        notices(StateFile::Absent, StateFile::Present(standing_state()), &[false, false]),
        none
    );
    assert_eq!(
        notices(StateFile::Present(transient_state()), StateFile::Present(standing_state()), &[]),
        none
    );
}
