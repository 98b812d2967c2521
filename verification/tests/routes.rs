//! Route commands, the phases that run them, installs and recovery.

use tun_engine::error::{CommandFailure, CommandOutput, RouteCommandError, RoutingError};
use tun_engine::gateway::{GatewayInfo, NextHop};
use tun_engine::ip::{IpAddr, Ipv4Addr, Ipv6Addr};
use tun_engine::routing::commands::{
    build_setup_commands, build_split_route_teardown_commands, build_teardown_commands, Platform, SetupCommand,
};
use tun_engine::routing::failclosed::lockdown_state;
use tun_engine::routing::failclosed::lockdown_state::Intent;
use tun_engine::routing::install::{InstallCall, InstallReply, SystemRoutes, SystemRouting, UninstallCall};
use tun_engine::routing::recover::{recover_routes, recover_routes_with, RecoverCall, RecoverReply};
use tun_engine::routing::recovery::{decide_cover_recovery, CoverPresence, CoverRecovery, Recovery};
use tun_engine::routing::run::{
    exec_verdict, run_cleanup_with, run_setup_with, setup_routes, teardown_routes, BestEffortPhase, CleanupReport,
    FatalPhase, Phase,
};
use tun_engine::routing::state;
use tun_engine::routing::state::{RouteState, SCHEMA_VERSION};
use tun_engine::routing::state_file::Stored;

const TUN: &str = "hole-tun";

fn v4_server() -> IpAddr {
    IpAddr::V4(Ipv4Addr::new(203, 0, 113, 7))
}

fn v6_server() -> IpAddr {
    IpAddr::V6(Ipv6Addr::new(0x2001, 0xdb8, 0, 0, 0, 0, 0, 1))
}

fn gateway() -> GatewayInfo {
    let hop = IpAddr::V4(Ipv4Addr::new(192, 168, 0, 1));
    GatewayInfo {
        gateway_ip: hop,
        next_hop: NextHop::Via(hop),
        interface_name: "Wi-Fi 2".into(),
        interface_index: 9,
        ipv6_available: false,
    }
}

fn lines(commands: &[SetupCommand]) -> Vec<String> {
    commands.iter().map(|c| c.argv.join(" ")).collect()
}

fn joined(commands: &[Vec<String>]) -> Vec<String> {
    commands.iter().map(|c| c.join(" ")).collect()
}

#[test]
fn windows_setup_commands_are_exact() {
    let v4 = build_setup_commands(Platform::Windows, TUN, v4_server(), &gateway(), true);
    assert_eq!(
        lines(&v4),
        [
            "netsh interface ip add route 0.0.0.0/1 hole-tun",
            "netsh interface ip add route 128.0.0.0/1 hole-tun",
            "netsh interface ipv6 add route ::/1 hole-tun",
            "netsh interface ipv6 add route 8000::/1 hole-tun",
            "route add 203.0.113.7 mask 255.255.255.255 192.168.0.1",
        ]
    );
    let v6 = build_setup_commands(Platform::Windows, TUN, v6_server(), &gateway(), true);
    assert_eq!(
        v6[4].argv,
        ["netsh", "interface", "ipv6", "add", "route", "2001:db8::1/128", "Wi-Fi 2"]
    );
}

#[test]
fn macos_setup_commands_are_exact() {
    let v4 = build_setup_commands(Platform::MacOs, "utun4", v4_server(), &gateway(), true);
    assert_eq!(
        lines(&v4),
        [
            "route -n add -net 0.0.0.0/1 -interface utun4",
            "route -n add -net 128.0.0.0/1 -interface utun4",
            "route -n add -inet6 ::/1 -interface utun4",
            "route -n add -inet6 8000::/1 -interface utun4",
            "route -n add -host 203.0.113.7 192.168.0.1",
        ]
    );
    let v6 = build_setup_commands(Platform::MacOs, "utun4", v6_server(), &gateway(), true);
    assert_eq!(
        v6[4].argv,
        ["route", "-n", "add", "-inet6", "-host", "2001:db8::1", "-interface", "Wi-Fi 2"]
    );
}

#[test]
fn teardown_commands_are_exact() {
    assert_eq!(
        joined(&build_teardown_commands(Platform::Windows, TUN, v4_server(), "Wi-Fi")),
        [
            "netsh interface ip delete route 0.0.0.0/1 hole-tun",
            "netsh interface ip delete route 128.0.0.0/1 hole-tun",
            "netsh interface ipv6 delete route ::/1 hole-tun",
            "netsh interface ipv6 delete route 8000::/1 hole-tun",
            "route delete 203.0.113.7 mask 255.255.255.255",
        ]
    );
    assert_eq!(
        joined(&build_teardown_commands(Platform::Windows, TUN, v6_server(), "Wi-Fi"))[4],
        "netsh interface ipv6 delete route 2001:db8::1/128 Wi-Fi"
    );
    assert_eq!(
        joined(&build_teardown_commands(Platform::MacOs, "utun4", v4_server(), "en0")),
        [
            "route -n delete -net 0.0.0.0/1",
            "route -n delete -net 128.0.0.0/1",
            "route -n delete -inet6 ::/1",
            "route -n delete -inet6 8000::/1",
            "route -n delete -host 203.0.113.7",
        ]
    );
    assert_eq!(
        joined(&build_teardown_commands(Platform::MacOs, "utun4", v6_server(), "en0"))[4],
        "route -n delete -inet6 -host 2001:db8::1"
    );
}

#[test]
fn teardown_starts_with_the_splits() {
    for platform in [Platform::Windows, Platform::MacOs] {
        let splits = build_split_route_teardown_commands(platform, TUN);
        let all = build_teardown_commands(platform, TUN, v4_server(), "Wi-Fi");
        assert_eq!(splits.len(), 4);
        assert_eq!(all[..4], splits[..]);
        assert_eq!(all.len(), 5);
    }
}

#[test]
fn a_loopback_server_has_no_bypass() {
    let mapped = IpAddr::V6(Ipv6Addr::new(0, 0, 0, 0, 0, 0xffff, 0x7f00, 1));
    let v6 = IpAddr::V6(Ipv6Addr::new(0, 0, 0, 0, 0, 0, 0, 1));
    for server in [IpAddr::V4(Ipv4Addr::new(127, 9, 9, 9)), v6, mapped] {
        for platform in [Platform::Windows, Platform::MacOs] {
            assert_eq!(build_setup_commands(platform, TUN, server, &gateway(), true).len(), 4);
            assert_eq!(build_teardown_commands(platform, TUN, server, "Wi-Fi").len(), 4);
        }
    }
}

#[test]
fn only_the_ipv6_splits_may_fail_and_only_on_an_unbound_tunnel() {
    for platform in [Platform::Windows, Platform::MacOs] {
        let bound = build_setup_commands(platform, TUN, v4_server(), &gateway(), true);
        assert!(bound.iter().all(|c| c.fatal));
        let unbound: Vec<bool> = build_setup_commands(platform, TUN, v4_server(), &gateway(), false)
            .iter()
            .map(|c| c.fatal)
            .collect();
        assert_eq!(unbound, [true, true, false, false, true]);
    }
}

#[test]
fn an_exit_is_judged_by_its_code() {
    let out = |success, code| CommandOutput {
        success,
        code,
        stdout: String::new(),
        stderr: String::new(),
    };
    assert_eq!(exec_verdict(Ok(out(true, Some(0)))), Ok(()));
    assert_eq!(exec_verdict(Ok(out(false, Some(2)))), Err(CommandFailure::Exit(2)));
    assert_eq!(exec_verdict(Ok(out(false, None))), Err(CommandFailure::Exit(-1)));
    assert_eq!(
        exec_verdict(Err("not found".into())),
        Err(CommandFailure::Spawn("not found".into()))
    );
}

#[test]
fn setup_stops_at_the_first_fatal_failure() {
    let mut run = setup_routes(Platform::MacOs, "utun4", v4_server(), &gateway(), true);
    let mut issued = Vec::new();
    while let Some((argv, phase)) = run.next() {
        assert_eq!(phase, FatalPhase::Setup);
        issued.push(argv.join(" "));
        let answer = if issued.len() == 3 {
            Err(CommandFailure::Exit(1))
        } else {
            Ok(())
        };
        run = run.feed(answer);
    }
    assert_eq!(issued.len(), 3);
    assert_eq!(
        run.finish(),
        Err(RouteCommandError {
            program: "route".into(),
            index: 2,
            total: 5,
            failure: CommandFailure::Exit(1),
        })
    );
}

#[test]
fn a_tolerated_failure_does_not_stop_the_setup() {
    let mut run = setup_routes(Platform::Windows, TUN, v4_server(), &gateway(), false);
    let mut issued = 0;
    while let Some((argv, _)) = run.next() {
        let v6 = argv.iter().any(|w| w == "ipv6");
        issued += 1;
        run = run.feed(if v6 { Err(CommandFailure::Exit(1)) } else { Ok(()) });
    }
    assert_eq!(issued, 5);
    assert_eq!(run.finish(), Ok(()));
}

#[test]
fn a_setup_without_commands_succeeds() {
    let run = run_setup_with(vec![], FatalPhase::Setup);
    assert_eq!(run.next(), None);
    assert_eq!(run.finish(), Ok(()));

    let nameless = run_setup_with(vec![SetupCommand::fatal(vec![])], FatalPhase::CoverEngage);
    assert_eq!(nameless.next(), Some((&vec![], FatalPhase::CoverEngage)));
    let nameless = nameless.feed(Err(CommandFailure::Spawn("empty".into())));
    let err = nameless.finish().expect_err("a fatal command failed");
    assert_eq!(err.program, "");
}

#[test]
fn a_cleanup_issues_every_command() {
    let mut run = teardown_routes(Platform::MacOs, "utun4", v4_server(), "en0");
    let mut issued = 0;
    while let Some((_, phase)) = run.next() {
        assert_eq!(phase, BestEffortPhase::Teardown);
        issued += 1;
        run = run.feed(if issued % 2 == 0 {
            Ok(())
        } else {
            Err(CommandFailure::Exit(1))
        });
    }
    assert_eq!(run.finish(), CleanupReport { attempted: 5, failed: 3 });
    assert_eq!(run_cleanup_with(vec![], BestEffortPhase::RecoverSplit).finish(), CleanupReport::default());
}

#[test]
fn phases_have_names_and_only_cleanup_is_best_effort() {
    assert!(!FatalPhase::best_effort());
    assert!(BestEffortPhase::best_effort());
    assert_eq!(FatalPhase::Setup.name(), "setup");
    assert_eq!(FatalPhase::CoverEngage.name(), "cover-engage");
    assert_eq!(BestEffortPhase::Teardown.name(), "teardown");
    assert_eq!(BestEffortPhase::RecoverSplit.name(), "recover-split");
    assert_eq!(BestEffortPhase::RecoverBypass.name(), "recover-bypass");
    assert_eq!(BestEffortPhase::RecoverCover.name(), "recover-cover");
}

#[test]
fn an_install_records_its_routes_before_it_sets_them() {
    let routing = SystemRouting::new("/var/lib/hole".into(), Some((501, 20)));
    assert_eq!(routing.state_dir(), "/var/lib/hole");
    assert_eq!(routing.owner(), Some((501, 20)));

    let run = routing.install_with(TUN, v4_server(), &gateway());
    assert_eq!(
        run.next(),
        Some(InstallCall::SaveState(RouteState {
            version: SCHEMA_VERSION,
            tun_name: TUN.into(),
            server_ip: v4_server(),
            interface_name: "Wi-Fi 2".into(),
        }))
    );
    let run = run.feed(InstallReply::Saved(Ok(())));
    assert_eq!(run.next(), Some(InstallCall::Setup(TUN.into(), v4_server(), gateway())));
    let run = run.feed(InstallReply::SetUp(Ok(())));
    assert_eq!(run.next(), None);
    let routes = run.finish().expect("both steps succeeded");
    assert_eq!(
        routes,
        SystemRoutes {
            tun_name: TUN.into(),
            server_ip: v4_server(),
            interface_name: "Wi-Fi 2".into(),
        }
    );
}

#[test]
fn an_uninstall_tears_down_then_clears_then_removes_the_adapter() {
    let routes = SystemRoutes {
        tun_name: TUN.into(),
        server_ip: v4_server(),
        interface_name: "Wi-Fi 2".into(),
    };
    let mut run = routes.uninstall();
    let mut calls = Vec::new();
    let mut warnings = Vec::new();
    while let Some(call) = run.next() {
        calls.push(call);
        warnings.push(run.warning());
        run = run.feed();
    }
    assert_eq!(
        calls,
        [
            UninstallCall::Teardown(TUN.into(), v4_server(), "Wi-Fi 2".into()),
            UninstallCall::ClearState,
            UninstallCall::RemoveAdapter(TUN.into()),
        ]
    );
    assert_eq!(
        warnings,
        [None, Some("state-file clear failed in SystemRoutes::drop"), None]
    );
}

#[test]
fn a_recovery_undoes_an_install_that_crashed() {
    for server in [v4_server(), v6_server()] {
        let install = SystemRouting::new("/var/lib/hole".into(), None).install_with(TUN, server, &gateway());
        let Some(InstallCall::SaveState(record)) = install.next() else {
            panic!("the record comes first");
        };
        let adds = build_setup_commands(Platform::MacOs, TUN, server, &gateway(), true);
        let (calls, _) = recover(state::load(Stored::Parsed(record)), Intent::Off, CoverPresence::Absent);
        let RecoverCall::Cleanup(BestEffortPhase::RecoverBypass, deletes) = &calls[1] else {
            panic!("the routes are deleted");
        };
        assert_eq!(deletes.len(), adds.len());
        for (add, delete) in adds.iter().zip(deletes) {
            assert_eq!(add.argv[2], "add");
            assert_eq!(delete[2], "delete");
            let destination = if add.argv[4] == "-host" { 5 } else { 4 };
            assert_eq!(add.argv[destination], delete[destination]);
        }
        assert_eq!(calls[2], RecoverCall::ClearRouteState);
    }
}

#[test]
fn an_install_that_cannot_be_recorded_sets_nothing() {
    let run = SystemRouting::new("/nowhere".into(), None)
        .install_with(TUN, v4_server(), &gateway())
        .feed(InstallReply::Saved(Err("disk full".into())));
    assert_eq!(run.next(), None);
    assert_eq!(
        run.finish(),
        Err(RoutingError::RouteSetup("failed to persist route-state: disk full".into()))
    );
}

#[test]
fn a_failed_setup_is_rolled_back() {
    let failure = RouteCommandError {
        program: "netsh".into(),
        index: 1,
        total: 5,
        failure: CommandFailure::Exit(87),
    };
    assert_eq!(
        failure.message(),
        "netsh (command 1 of 5, counted from 0) exited with code 87"
    );
    let run = SystemRouting::new("/var/lib/hole".into(), None)
        .install_with(TUN, v4_server(), &gateway())
        .feed(InstallReply::Saved(Ok(())))
        .feed(InstallReply::SetUp(Err(failure)));
    assert_eq!(
        run.next(),
        Some(InstallCall::Teardown(TUN.into(), v4_server(), "Wi-Fi 2".into()))
    );
    let run = run.feed(InstallReply::TornDown(CleanupReport { attempted: 5, failed: 4 }));
    assert_eq!(run.next(), Some(InstallCall::ClearState));
    let run = run.feed(InstallReply::Cleared(Err("busy".into())));
    assert_eq!(run.next(), None);
    assert_eq!(
        run.finish(),
        Err(RoutingError::RouteSetup(
            "netsh (command 1 of 5, counted from 0) exited with code 87".into()
        ))
    );
}

#[test]
fn a_command_that_did_not_start_says_why() {
    let failure = RouteCommandError {
        program: "route".into(),
        index: 0,
        total: 1,
        failure: CommandFailure::Spawn("No such file or directory".into()),
    };
    assert_eq!(
        failure.message(),
        "route (command 0 of 1, counted from 0) failed to start: No such file or directory"
    );
    assert_eq!(RoutingError::Gateway("no route".into()).message(), "no route");
}

#[test]
fn every_intent_and_presence_has_one_decision() {
    let table = [
        (Intent::On, CoverPresence::Live, CoverRecovery::Adopt, false),
        (Intent::On, CoverPresence::Recorded, CoverRecovery::Adopt, false),
        (Intent::On, CoverPresence::Indeterminate, CoverRecovery::Adopt, false),
        (Intent::On, CoverPresence::Absent, CoverRecovery::Noop, false),
        (Intent::On, CoverPresence::Unreachable, CoverRecovery::Noop, false),
        (Intent::Off, CoverPresence::Live, CoverRecovery::Sweep, false),
        (Intent::Off, CoverPresence::Recorded, CoverRecovery::Sweep, false),
        (Intent::Off, CoverPresence::Indeterminate, CoverRecovery::Sweep, false),
        (Intent::Off, CoverPresence::Absent, CoverRecovery::Noop, false),
        (Intent::Off, CoverPresence::Unreachable, CoverRecovery::Noop, false),
        (Intent::Unset, CoverPresence::Live, CoverRecovery::Adopt, true),
        (Intent::Unset, CoverPresence::Recorded, CoverRecovery::Adopt, false),
        (Intent::Unset, CoverPresence::Indeterminate, CoverRecovery::Noop, false),
        (Intent::Unset, CoverPresence::Absent, CoverRecovery::Noop, false),
        (Intent::Unset, CoverPresence::Unreachable, CoverRecovery::Noop, false),
        (Intent::Unreadable, CoverPresence::Live, CoverRecovery::Adopt, true),
        (Intent::Unreadable, CoverPresence::Recorded, CoverRecovery::Adopt, false),
        (Intent::Unreadable, CoverPresence::Indeterminate, CoverRecovery::Adopt, false),
        (Intent::Unreadable, CoverPresence::Absent, CoverRecovery::Noop, false),
        (Intent::Unreadable, CoverPresence::Unreachable, CoverRecovery::Noop, false),
    ];
    for (intent, presence, action, record_intent_on) in table {
        assert_eq!(
            decide_cover_recovery(intent, presence),
            Recovery { action, record_intent_on, presence }
        );
    }
}

fn crashed_run() -> RouteState {
    RouteState {
        version: SCHEMA_VERSION,
        tun_name: "utun9".into(),
        server_ip: v4_server(),
        interface_name: "en0".into(),
    }
}

fn recover(
    state: Option<RouteState>,
    intent: Intent,
    presence: CoverPresence,
) -> (Vec<RecoverCall>, Recovery) {
    let mut run = recover_routes_with(Platform::MacOs, state, "utun4", intent);
    let mut calls = Vec::new();
    while let Some(call) = run.next() {
        let reply = match &call {
            RecoverCall::Presence => RecoverReply::Presence(presence),
            _ => RecoverReply::Done,
        };
        calls.push(call);
        run = run.feed(reply);
    }
    (calls, run.finish())
}

#[test]
fn a_recovery_without_a_record_issues_no_route_command() {
    let (calls, decision) = recover(None, Intent::Off, CoverPresence::Absent);
    assert_eq!(
        calls,
        [
            RecoverCall::Presence,
            RecoverCall::RecoverLockdown(CoverRecovery::Noop, "utun4".into()),
            RecoverCall::SweepCover(false),
        ]
    );
    assert_eq!(decision.action, CoverRecovery::Noop);
}

#[test]
fn a_recovery_takes_the_recorded_routes_back_and_then_the_record() {
    let (calls, _) = recover(Some(crashed_run()), Intent::Off, CoverPresence::Live);
    assert_eq!(
        calls,
        [
            RecoverCall::Cleanup(
                BestEffortPhase::RecoverSplit,
                build_split_route_teardown_commands(Platform::MacOs, "utun9")
            ),
            RecoverCall::Cleanup(
                BestEffortPhase::RecoverBypass,
                build_teardown_commands(Platform::MacOs, "utun9", v4_server(), "en0")
            ),
            RecoverCall::ClearRouteState,
            RecoverCall::Presence,
            RecoverCall::RecoverLockdown(CoverRecovery::Sweep, "utun9".into()),
            RecoverCall::SweepCover(false),
        ]
    );
}

#[test]
fn a_recovery_repairs_the_intent_before_it_acts() {
    let (calls, decision) = recover(None, Intent::Unreadable, CoverPresence::Live);
    assert_eq!(
        calls,
        [
            RecoverCall::Presence,
            RecoverCall::RecordIntentOn,
            RecoverCall::RecoverLockdown(CoverRecovery::Adopt, "utun4".into()),
            RecoverCall::SweepCover(true),
        ]
    );
    assert!(decision.record_intent_on);
    assert_eq!(decision.presence, CoverPresence::Live);
}

#[test]
fn a_recovery_starts_from_what_the_disk_held() {
    let run = recover_routes(
        Platform::MacOs,
        Stored::Parsed(RouteState {
            version: SCHEMA_VERSION + 1,
            ..crashed_run()
        }),
        "utun4",
        Stored::Parsed(lockdown_state::set_enabled(true)),
    );
    assert_eq!(run.next(), Some(RecoverCall::Presence));
    let run = run.feed(RecoverReply::Presence(CoverPresence::Recorded));
    assert_eq!(
        run.next(),
        Some(RecoverCall::RecoverLockdown(CoverRecovery::Adopt, "utun4".into()))
    );
}
