//! What the route commands do, read off their words.

use vstd::prelude::*;
use crate::error::{CommandFailure, RouteCommandError, RoutingErrorView};
use crate::gateway::GatewayInfo;
use crate::ip::{groups, longest_zeros, zeros_from, IpAddr};
use crate::routing::commands::{
    setup_commands, split_teardown_commands, teardown_commands, Platform, SetupCommand,
};
use crate::routing::failclosed::lockdown_state::Intent;
use crate::routing::install::{
    install_calls, install_result, uninstall_calls, InstallCallView, InstallReply, SystemRoutesView, UninstallCallView,
};
use crate::routing::recover::{recover_calls, RecoverCallView, RecoverReply};
use crate::routing::recovery::CoverPresence;
use crate::routing::run::{
    failures, fatal_at, is_abort_error, setup_aborted, setup_over, Answers, BestEffortPhase,
};
use crate::routing::state::RouteStateView;
use crate::text::numeral;

verus! {

/// A command line, word by word.
pub type Argv = Seq<Seq<char>>;

/// The deletion is the addition with its verb changed at `v`, and leaves out at most
/// what only an addition has to say.
pub open spec fn undoes_at(add: Argv, del: Argv, v: int) -> bool {
    &&& 0 <= v < del.len() <= add.len()
    &&& add[v] == "add"@
    &&& del[v] == "delete"@
    &&& forall|k: int| 0 <= k < del.len() && k != v ==> del[k] == add[k]
}

/// The deletion takes back what the addition added.
pub open spec fn undoes(add: Argv, del: Argv) -> bool {
    exists|v: int| #[trigger] undoes_at(add, del, v)
}

/// Each deletion of a teardown takes back the addition of the same place in a setup:
/// it names the same destination and, where it names an interface, the same one.
/// Taking the splits back alone does so for the first four.
pub proof fn each_deletion_undoes_its_addition(
    p: Platform,
    tun: Seq<char>,
    server: IpAddr,
    gateway: Seq<char>,
    interface: Seq<char>,
    tun_ipv6: bool,
    i: int,
)
    requires
        0 <= i < setup_commands(p, tun, server, gateway, interface, tun_ipv6).len(),
    ensures
        ({
            let adds = setup_commands(p, tun, server, gateway, interface, tun_ipv6);
            let dels = teardown_commands(p, tun, server, interface);
            let splits = split_teardown_commands(p, tun);
            &&& dels.len() == adds.len()
            &&& splits.len() == 4
            &&& undoes(adds[i].argv, dels[i])
            &&& i < 4 ==> undoes(adds[i].argv, splits[i])
            &&& p is Windows && (i < 4 || server is V6) ==> dels[i].len() == adds[i].argv.len()
            &&& p is Windows && i < 4 ==> splits[i].len() == adds[i].argv.len()
            &&& p is Windows && i == 4 && server is V4 ==> dels[i].len() == 5
            &&& p is MacOs && i < 4 ==> dels[i].len() == 5 && splits[i].len() == 5
            &&& p is MacOs && i == 4 ==> dels[i].len() == if server is V4 {
                5nat
            } else {
                6nat
            }
        }),
{
    let adds = setup_commands(p, tun, server, gateway, interface, tun_ipv6);
    let dels = teardown_commands(p, tun, server, interface);
    let splits = split_teardown_commands(p, tun);
    let v: int = match p {
        Platform::Windows => if i < 4 || server is V6 {
            3
        } else {
            1
        },
        Platform::MacOs => 2,
    };
    assert(undoes_at(adds[i].argv, dels[i], v));
    if i < 4 {
        assert(undoes_at(adds[i].argv, splits[i], v));
    }
}

/// The splits go into the tunnel, and the bypass does not: an IPv4 server is reached
/// through the gateway and an IPv6 one over the upstream interface. On Windows a
/// deletion names the interface too.
pub proof fn each_route_names_where_it_leads(
    p: Platform,
    tun: Seq<char>,
    server: IpAddr,
    gateway: Seq<char>,
    interface: Seq<char>,
    tun_ipv6: bool,
    i: int,
)
    requires
        0 <= i < setup_commands(p, tun, server, gateway, interface, tun_ipv6).len(),
    ensures
        ({
            let add = setup_commands(p, tun, server, gateway, interface, tun_ipv6)[i].argv;
            let del = teardown_commands(p, tun, server, interface)[i];
            &&& i < 4 ==> add.last() == tun
            &&& i == 4 && server is V4 ==> add.last() == gateway
            &&& i == 4 && server is V6 ==> add.last() == interface
            &&& i == 4 ==> add.contains(
                if p is Windows && server is V6 {
                    server.text() + "/128"@
                } else {
                    server.text()
                },
            )
            &&& p is Windows && i < 4 ==> del.last() == tun && split_teardown_commands(p, tun)[i].last() == tun
            &&& p is Windows && i == 4 && server is V6 ==> del.last() == interface
        }),
{
    if i == 4 {
        let add = setup_commands(p, tun, server, gateway, interface, tun_ipv6)[i].argv;
        match (p, server) {
            (Platform::Windows, IpAddr::V4(_)) => assert(add[2] == server.text()),
            (Platform::Windows, IpAddr::V6(_)) => assert(add[5] == server.text() + "/128"@),
            (Platform::MacOs, IpAddr::V4(_)) => assert(add[4] == server.text()),
            (Platform::MacOs, IpAddr::V6(_)) => assert(add[5] == server.text()),
        }
    }
}

/// The commands are those of the platform, and each names its address family in the
/// platform's word for it.
pub proof fn each_command_names_its_family(
    p: Platform,
    tun: Seq<char>,
    server: IpAddr,
    gateway: Seq<char>,
    interface: Seq<char>,
    tun_ipv6: bool,
    i: int,
)
    requires
        0 <= i < setup_commands(p, tun, server, gateway, interface, tun_ipv6).len(),
    ensures
        ({
            let add = setup_commands(p, tun, server, gateway, interface, tun_ipv6)[i].argv;
            let v6 = i == 2 || i == 3 || (i == 4 && server is V6);
            &&& add.len() == if i == 4 && !v6 {
                6nat
            } else if i == 4 && p is MacOs {
                8nat
            } else {
                7nat
            }
            &&& match p {
                Platform::Windows => if i == 4 && !v6 {
                    &&& add.take(2) == seq!["route"@, "add"@]
                    &&& add.skip(3).take(2) == seq!["mask"@, "255.255.255.255"@]
                } else {
                    add.take(5) == seq!["netsh"@, "interface"@, if v6 {
                        "ipv6"@
                    } else {
                        "ip"@
                    }, "add"@, "route"@]
                },
                Platform::MacOs => {
                    &&& add.take(3) == seq!["route"@, "-n"@, "add"@]
                    &&& i < 4 && !v6 ==> add[3] == "-net"@
                    &&& v6 ==> add[3] == "-inet6"@
                    &&& i == 4 ==> add[if v6 {
                        4int
                    } else {
                        3int
                    }] == "-host"@
                    &&& i < 4 || v6 ==> add[add.len() - 2] == "-interface"@
                },
            }
        }),
{
    let add = setup_commands(p, tun, server, gateway, interface, tun_ipv6)[i].argv;
    let v6 = i == 2 || i == 3 || (i == 4 && server is V6);
    match p {
        Platform::Windows => if i == 4 && !v6 {
            assert(add.take(2) =~= seq!["route"@, "add"@]);
            assert(add.skip(3).take(2) =~= seq!["mask"@, "255.255.255.255"@]);
        } else {
            assert(add.take(5) =~= seq!["netsh"@, "interface"@, if v6 {
                "ipv6"@
            } else {
                "ip"@
            }, "add"@, "route"@]);
        },
        Platform::MacOs => assert(add.take(3) =~= seq!["route"@, "-n"@, "add"@]),
    }
}

/// `net` is the half of its address family that `dest` lies in: the first bit is that
/// of `dest`, and the others are zero.
pub open spec fn half_of(dest: IpAddr, net: IpAddr) -> bool {
    match (dest, net) {
        (IpAddr::V4(d), IpAddr::V4(n)) => {
            &&& n.octets@[0] == if d.octets@[0] >= 128 {
                128u8
            } else {
                0u8
            }
            &&& n.octets@[1] == 0 && n.octets@[2] == 0 && n.octets@[3] == 0
        },
        (IpAddr::V6(d), IpAddr::V6(n)) => {
            &&& n.segments@[0] == if d.segments@[0] >= 0x8000 {
                0x8000u16
            } else {
                0u16
            }
            &&& forall|k: int| 1 <= k < 8 ==> n.segments@[k] == 0
        },
        _ => false,
    }
}

proof fn lemma_halves_v4(net: IpAddr, high: bool)
    requires
        net matches IpAddr::V4(n) && n.octets@[0] == (if high { 128u8 } else { 0u8 }) && n.octets@[1] == 0
            && n.octets@[2] == 0 && n.octets@[3] == 0,
    ensures
        net.text() + "/1"@ == if high { "128.0.0.0/1"@ } else { "0.0.0.0/1"@ },
{
    reveal_with_fuel(numeral, 4);
    reveal_strlit(".");
    reveal_strlit("/1");
    reveal_strlit("128.0.0.0/1");
    reveal_strlit("0.0.0.0/1");
    assert(numeral(0, 10) =~= seq!['0']);
    assert(numeral(1, 10) =~= seq!['1']);
    assert(numeral(12, 10) =~= seq!['1', '2']);
    assert(numeral(128, 10) =~= seq!['1', '2', '8']);
    if high {
        assert(net.text() + "/1"@ =~= "128.0.0.0/1"@);
    } else {
        assert(net.text() + "/1"@ =~= "0.0.0.0/1"@);
    }
}

proof fn lemma_halves_v6(net: IpAddr, high: bool)
    requires
        net matches IpAddr::V6(n) && n.segments@[0] == (if high { 0x8000u16 } else { 0u16 }) && forall|k: int|
            1 <= k < 8 ==> n.segments@[k] == 0,
    ensures
        net.text() + "/1"@ == if high { "8000::/1"@ } else { "::/1"@ },
{
    let s = net->V6_0.segments@;
    reveal_with_fuel(numeral, 5);
    reveal_with_fuel(zeros_from, 9);
    reveal_with_fuel(longest_zeros, 9);
    reveal_with_fuel(groups, 2);
    reveal_strlit("::");
    reveal_strlit("/1");
    reveal_strlit("8000::/1");
    reveal_strlit("::/1");
    assert(zeros_from(s, 8) == 0);
    assert(zeros_from(s, 7) == 1);
    assert(zeros_from(s, 6) == 2);
    assert(zeros_from(s, 5) == 3);
    assert(zeros_from(s, 4) == 4);
    assert(zeros_from(s, 3) == 5);
    assert(zeros_from(s, 2) == 6);
    assert(zeros_from(s, 1) == 7);
    if high {
        assert(zeros_from(s, 0) == 0);
        assert(longest_zeros(s, 8) == (1int, 7nat));
        assert(s.take(1) =~= seq![0x8000u16]);
        assert(s.skip(8) =~= Seq::<u16>::empty());
        assert(numeral(8, 16) =~= seq!['8']);
        assert(numeral(0x80, 16) =~= seq!['8', '0']);
        assert(numeral(0x800, 16) =~= seq!['8', '0', '0']);
        assert(numeral(0x8000, 16) =~= seq!['8', '0', '0', '0']);
        assert(net.text() + "/1"@ =~= "8000::/1"@);
    } else {
        assert(zeros_from(s, 0) == 8);
        assert(longest_zeros(s, 8) == (0int, 8nat));
        assert(s.take(0) =~= Seq::<u16>::empty());
        assert(s.skip(8) =~= Seq::<u16>::empty());
        assert(net.text() + "/1"@ =~= "::/1"@);
    }
}

/// Every address of either family is sent into the tunnel by one of the splits: the
/// one whose destination is the half that the address lies in.
pub proof fn the_splits_send_every_address_into_the_tunnel(
    p: Platform,
    tun: Seq<char>,
    server: IpAddr,
    gateway: Seq<char>,
    interface: Seq<char>,
    tun_ipv6: bool,
    dest: IpAddr,
    net: IpAddr,
)
    requires
        half_of(dest, net),
    ensures
        ({
            let adds = setup_commands(p, tun, server, gateway, interface, tun_ipv6);
            exists|i: int|
                0 <= i < 4 && i < adds.len() && (#[trigger] adds[i]).argv.contains(net.text() + "/1"@)
                    && adds[i].argv.last() == tun
        }),
{
    let adds = setup_commands(p, tun, server, gateway, interface, tun_ipv6);
    let at: int = if p is Windows {
        5
    } else {
        4
    };
    match (dest, net) {
        (IpAddr::V4(d), IpAddr::V4(_)) => {
            lemma_halves_v4(net, d.octets@[0] >= 128);
            let i: int = if d.octets@[0] >= 128 {
                1
            } else {
                0
            };
            assert(adds[i].argv[at] == net.text() + "/1"@);
        }
        (IpAddr::V6(d), IpAddr::V6(_)) => {
            lemma_halves_v6(net, d.segments@[0] >= 0x8000);
            let i: int = if d.segments@[0] >= 0x8000 {
                3
            } else {
                2
            };
            assert(adds[i].argv[at] == net.text() + "/1"@);
        }
        _ => {}
    }
}

/// The server gets a bypass unless it is the host itself: `127.0.0.0/8`, its
/// IPv4-mapped form, or `::1`. Setup and teardown agree on that.
pub proof fn only_a_loopback_server_has_no_bypass(
    p: Platform,
    tun: Seq<char>,
    server: IpAddr,
    gateway: Seq<char>,
    interface: Seq<char>,
    tun_ipv6: bool,
)
    ensures
        ({
            let here = match server {
                IpAddr::V4(v4) => v4.octets@[0] == 127,
                IpAddr::V6(v6) => {
                    let s = v6.segments@;
                    &&& s[0] == 0 && s[1] == 0 && s[2] == 0 && s[3] == 0 && s[4] == 0
                    &&& (s[5] == 0xffff && 0x7f00 <= s[6] <= 0x7fff) || (s[5] == 0 && s[6] == 0 && s[7] == 1)
                },
            };
            let n: nat = if here {
                4
            } else {
                5
            };
            &&& setup_commands(p, tun, server, gateway, interface, tun_ipv6).len() == n
            &&& teardown_commands(p, tun, server, interface).len() == n
        }),
{
    if let IpAddr::V6(v6) = server {
        let s = v6.segments@;
        if s[0] == 0 && s[1] == 0 && s[2] == 0 && s[3] == 0 && s[4] == 0 && s[5] == 0 && s[6] == 0 && s[7] == 1 {
            assert forall|k: int| 0 <= k < 7 implies s[k] == 0 by {
                assert(k == 0 || k == 1 || k == 2 || k == 3 || k == 4 || k == 5 || k == 6);
            }
            assert(v6.loopback());
        }
        if v6.loopback() {
            assert(s[0] == 0 && s[1] == 0 && s[2] == 0 && s[3] == 0 && s[4] == 0 && s[5] == 0 && s[6] == 0);
        }
        assert(s[6] / 256 == 127 <==> 0x7f00 <= s[6] <= 0x7fff);
    }
}

/// The recovery of a record deletes each route where the setup of the record's routes
/// added it: the four splits of the recorded tunnel, first alone and then with the
/// bypass over the recorded interface. Only then is the record removed.
pub proof fn a_recovery_deletes_each_route_where_it_was_added(
    p: Platform,
    st: RouteStateView,
    gateway: Seq<char>,
    tun_ipv6: bool,
    tun_name: Seq<char>,
    intent: Intent,
    r: Seq<RecoverReply>,
)
    ensures
        ({
            let calls = recover_calls(p, Some(st), tun_name, intent, r);
            let adds = setup_commands(p, st.tun_name, st.server_ip, gateway, st.interface_name, tun_ipv6);
            &&& calls.len() >= 3
            &&& calls[0] matches RecoverCallView::Cleanup(BestEffortPhase::RecoverSplit, splits)
            &&& calls[1] matches RecoverCallView::Cleanup(BestEffortPhase::RecoverBypass, all)
            &&& calls[2] is ClearRouteState
            &&& splits.len() == 4
            &&& all.len() == adds.len()
            &&& forall|i: int| 0 <= i < 4 ==> undoes((#[trigger] adds[i]).argv, splits[i])
            &&& forall|i: int| 0 <= i < adds.len() ==> undoes((#[trigger] adds[i]).argv, all[i])
            &&& p is Windows ==> forall|i: int|
                0 <= i < 4 ==> (#[trigger] splits[i]).last() == st.tun_name && all[i].last() == st.tun_name
            &&& p is Windows && st.server_ip is V6 && all.len() == 5 ==> all[4].last() == st.interface_name
        }),
{
    let adds = setup_commands(p, st.tun_name, st.server_ip, gateway, st.interface_name, tun_ipv6);
    let calls = recover_calls(p, Some(st), tun_name, intent, r);
    let splits = calls[0]->Cleanup_1;
    let all = calls[1]->Cleanup_1;
    each_deletion_undoes_its_addition(p, st.tun_name, st.server_ip, gateway, st.interface_name, tun_ipv6, 0);
    assert forall|i: int| 0 <= i < adds.len() implies undoes((#[trigger] adds[i]).argv, all[i]) by {
        each_deletion_undoes_its_addition(p, st.tun_name, st.server_ip, gateway, st.interface_name, tun_ipv6, i);
    }
    assert forall|i: int| 0 <= i < 4 implies undoes((#[trigger] adds[i]).argv, splits[i]) by {
        each_deletion_undoes_its_addition(p, st.tun_name, st.server_ip, gateway, st.interface_name, tun_ipv6, i);
    }
}

/// A recovery asks for the presence of a standing lockdown once, after the routes;
/// what it then does follows from the answer and the intent, and names the recorded
/// tunnel, or the configured one where none is recorded.
pub proof fn a_recovery_acts_on_the_presence_it_found(
    p: Platform,
    state: Option<RouteStateView>,
    tun_name: Seq<char>,
    intent: Intent,
    r: Seq<RecoverReply>,
    presence: CoverPresence,
)
    requires
        r[if state is Some {
            3int
        } else {
            0int
        }] == RecoverReply::Presence(presence),
    ensures
        ({
            let calls = recover_calls(p, state, tun_name, intent, r);
            let n: int = if state is Some {
                3
            } else {
                0
            };
            let repair = presence is Live && (intent is Unset || intent is Unreadable);
            let k = n + if repair {
                2int
            } else {
                1int
            };
            let present = presence is Live || presence is Recorded;
            &&& calls.len() == k + 2
            &&& calls[n] is Presence
            &&& repair ==> calls[n + 1] is RecordIntentOn
            &&& calls[k] matches RecoverCallView::RecoverLockdown(action, name)
            &&& name == match state {
                Some(st) => st.tun_name,
                None => tun_name,
            }
            &&& action is Sweep <==> intent is Off && (present || presence is Indeterminate)
            &&& action is Adopt <==> !(intent is Off) && (present || (presence is Indeterminate && !(intent is Unset)))
            &&& calls[k + 1] == RecoverCallView::SweepCover(action is Adopt)
        }),
{
}

/// An install of these routes writes them down, sets them up and, where the setup
/// failed, tears the same ones down: every call names the tunnel, the server and the
/// upstream interface that the install was asked for.
pub proof fn every_step_of_an_install_names_its_routes(
    tun: Seq<char>,
    server: IpAddr,
    gateway: GatewayInfo,
    r: Seq<InstallReply>,
    i: int,
)
    requires
        0 <= i < install_calls(
            SystemRoutesView { tun_name: tun, server_ip: server, interface_name: gateway.interface_name@ },
            gateway,
            r,
        ).len(),
    ensures
        match install_calls(
            SystemRoutesView { tun_name: tun, server_ip: server, interface_name: gateway.interface_name@ },
            gateway,
            r,
        )[i] {
            InstallCallView::SaveState(st) => i == 0 && st.version == 1 && st.tun_name == tun && st.server_ip == server
                && st.interface_name == gateway.interface_name@,
            InstallCallView::Setup(t, s, g) => i == 1 && t == tun && s == server && g == gateway && (r[0] is Saved
                ==> r[0]->Saved_0 is Ok),
            InstallCallView::Teardown(t, s, interface) => i == 2 && t == tun && s == server && interface
                == gateway.interface_name@ && r[1] is SetUp && r[1]->SetUp_0 is Err,
            InstallCallView::ClearState => i == 3 && r[1] is SetUp && r[1]->SetUp_0 is Err,
        },
{
}

/// An install yields the routes it was asked for exactly where the record was written
/// and the setup succeeded, and otherwise says in the failing step's words why not. A
/// failed setup is rolled back by two more calls, and nothing else is.
pub proof fn an_install_succeeds_iff_recorded_and_set_up(
    routes: SystemRoutesView,
    gateway: GatewayInfo,
    r: Seq<InstallReply>,
)
    requires
        r[0] is Saved,
        r[1] is SetUp,
    ensures
        match (r[0]->Saved_0, r[1]->SetUp_0) {
            (Err(words), _) => {
                &&& install_result(routes, r) == Err::<SystemRoutesView, RoutingErrorView>(
                    RoutingErrorView::RouteSetup("failed to persist route-state: "@ + words@),
                )
                &&& install_calls(routes, gateway, r).len() == 1
            },
            (Ok(()), Err(e)) => {
                &&& install_result(routes, r) == Err::<SystemRoutesView, RoutingErrorView>(
                    RoutingErrorView::RouteSetup(e.text()),
                )
                &&& install_calls(routes, gateway, r).len() == 4
            },
            (Ok(()), Ok(())) => {
                &&& install_result(routes, r) == Ok::<SystemRoutesView, RoutingErrorView>(routes)
                &&& install_calls(routes, gateway, r).len() == 2
            },
        },
{
}

/// Taking routes back undoes their install: the same tunnel, server and interface are
/// torn down that a failed setup would tear down, then the record goes, then the
/// tunnel's adapter.
pub proof fn an_uninstall_undoes_the_install(
    routes: SystemRoutesView,
    gateway: GatewayInfo,
    failed: Seq<InstallReply>,
)
    requires
        failed[0] is Saved && failed[0]->Saved_0 is Ok,
        failed[1] is SetUp && failed[1]->SetUp_0 is Err,
    ensures
        ({
            let back = uninstall_calls(routes);
            let rollback = install_calls(routes, gateway, failed);
            &&& back.len() == 3
            &&& back[0] matches UninstallCallView::Teardown(tun, server, interface)
            &&& rollback[2] == InstallCallView::Teardown(tun, server, interface)
            &&& rollback[1] == InstallCallView::Setup(tun, server, gateway)
            &&& tun == routes.tun_name && server == routes.server_ip && interface == routes.interface_name
            &&& back[1] is ClearState
            &&& back[2] == UninstallCallView::RemoveAdapter(tun)
        }),
{
}

/// A cleanup reports as failed exactly the commands that failed, each once.
pub proof fn a_cleanup_counts_each_failure_once(answers: Answers)
    ensures
        failures(answers) == answers.filter(|a: Result<(), CommandFailure>| a is Err).len(),
        failures(answers) <= answers.len(),
    decreases answers.len(),
{
    reveal(Seq::filter);
    let failed = |a: Result<(), CommandFailure>| a is Err;
    if answers.len() > 0 {
        a_cleanup_counts_each_failure_once(answers.drop_last());
    }
}

/// A setup ends early exactly where a command failed whose failure is fatal; any other
/// failure lets it go on, to the last command.
pub proof fn a_setup_ends_at_a_fatal_failure_alone(commands: Seq<SetupCommand>, answers: Answers)
    requires
        answers.len() <= commands.len(),
    ensures
        setup_aborted(commands, answers) <==> exists|i: int|
            0 <= i < answers.len() && (#[trigger] answers[i]) is Err && commands[i].fatal,
        (forall|i: int| 0 <= i < answers.len() && commands[i].fatal ==> (#[trigger] answers[i]) is Ok) ==> (setup_over(
            commands,
            answers,
        ) <==> answers.len() == commands.len()),
{
    if exists|i: int| 0 <= i < answers.len() && (#[trigger] answers[i]) is Err && commands[i].fatal {
        let i = choose|i: int| 0 <= i < answers.len() && (#[trigger] answers[i]) is Err && commands[i].fatal;
        assert(fatal_at(commands, answers, i));
    }
}

/// The error that ends a setup names the command that failed: its program, its place
/// among all of them, and its own failure.
pub proof fn a_setup_error_names_the_command_that_failed(
    commands: Seq<SetupCommand>,
    answers: Answers,
    i: int,
    e: RouteCommandError,
)
    requires
        is_abort_error(commands, answers, i, e),
    ensures
        e.index == i,
        e.total == commands.len(),
        answers[i] == Err::<(), CommandFailure>(e.failure),
        commands[i].argv@.len() > 0 ==> e.program@ == commands[i].argv@[0]@,
        commands[i].argv@.len() == 0 ==> e.program@.len() == 0,
{
}

} // verus!
