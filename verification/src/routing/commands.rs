//! The route commands of each platform.
//!
//! Four split routes send both halves of both address families into the tunnel;
//! one bypass keeps the server reachable outside it. Setup adds them, teardown
//! deletes them.

use vstd::prelude::*;
use crate::gateway::GatewayInfo;
use crate::ip::IpAddr;

verus! {

/// The operating system whose commands are built.
#[derive(Debug, Clone, Copy, PartialEq, Eq, Structural)]
pub enum Platform {
    Windows,
    MacOs,
}

/// One route-install command, and whether its failure ends the install.
///
/// The IPv4 splits and the server bypass are always fatal: without one of them
/// traffic leaves outside the tunnel. The IPv6 splits are fatal only where the
/// tunnel interface has an IPv6 binding. A command that is not fatal is still
/// issued.
#[derive(Debug, Clone, PartialEq, Eq)]
pub struct SetupCommand {
    /// Program and arguments.
    pub argv: Vec<String>,
    /// Whether a failure ends the phase.
    pub fatal: bool,
}

/// [`SetupCommand`] with its words as characters.
pub struct SetupCommandView {
    pub argv: Seq<Seq<char>>,
    pub fatal: bool,
}

/// The words of a command line, as characters.
pub open spec fn words(argv: Seq<String>) -> Seq<Seq<char>> {
    Seq::new(argv.len(), |i: int| argv[i]@)
}

/// A list of command lines, as characters.
pub open spec fn command_lines(commands: Seq<Vec<String>>) -> Seq<Seq<Seq<char>>> {
    Seq::new(commands.len(), |i: int| words(commands[i]@))
}

/// A list of setup commands, as views.
pub open spec fn setup_lines(commands: Seq<SetupCommand>) -> Seq<SetupCommandView> {
    Seq::new(commands.len(), |i: int| commands[i]@)
}

impl View for SetupCommand {
    type V = SetupCommandView;

    open spec fn view(&self) -> SetupCommandView {
        SetupCommandView { argv: words(self.argv@), fatal: self.fatal }
    }
}

impl SetupCommand {
    /// A command whose failure ends the install.
    pub fn fatal(argv: Vec<String>) -> (r: Self)
        ensures
            r.argv == argv,
            r.fatal,
    {
        SetupCommand { argv, fatal: true }
    }
}

/// Half of an address family.
#[derive(Debug, Clone, Copy, PartialEq, Eq, Structural)]
pub enum Split {
    LowV4,
    HighV4,
    LowV6,
    HighV6,
}

impl Split {
    pub open spec fn is_v6(self) -> bool {
        self is LowV6 || self is HighV6
    }

    /// The half as a prefix.
    pub open spec fn prefix(self) -> Seq<char> {
        match self {
            Split::LowV4 => "0.0.0.0/1"@,
            Split::HighV4 => "128.0.0.0/1"@,
            Split::LowV6 => "::/1"@,
            Split::HighV6 => "8000::/1"@,
        }
    }

    fn v6(&self) -> (r: bool)
        ensures
            r == self.is_v6(),
    {
        match self {
            Split::LowV4 | Split::HighV4 => false,
            Split::LowV6 | Split::HighV6 => true,
        }
    }

    fn prefix_text(&self) -> (r: String)
        ensures
            r@ == self.prefix(),
    {
        match self {
            Split::LowV4 => "0.0.0.0/1".to_owned(),
            Split::HighV4 => "128.0.0.0/1".to_owned(),
            Split::LowV6 => "::/1".to_owned(),
            Split::HighV6 => "8000::/1".to_owned(),
        }
    }
}

/// The four halves, in the order their commands are issued.
pub open spec fn all_splits() -> Seq<Split> {
    seq![Split::LowV4, Split::HighV4, Split::LowV6, Split::HighV6]
}

/// The command that sends a half of the address space into the tunnel.
pub open spec fn add_split(p: Platform, s: Split, tun: Seq<char>) -> Seq<Seq<char>> {
    match p {
        Platform::Windows => seq![
            "netsh"@,
            "interface"@,
            if s.is_v6() {
                "ipv6"@
            } else {
                "ip"@
            },
            "add"@,
            "route"@,
            s.prefix(),
            tun,
        ],
        Platform::MacOs => seq![
            "route"@,
            "-n"@,
            "add"@,
            if s.is_v6() {
                "-inet6"@
            } else {
                "-net"@
            },
            s.prefix(),
            "-interface"@,
            tun,
        ],
    }
}

/// The command that takes a half of the address space back out of the tunnel.
pub open spec fn delete_split(p: Platform, s: Split, tun: Seq<char>) -> Seq<Seq<char>> {
    match p {
        Platform::Windows => seq![
            "netsh"@,
            "interface"@,
            if s.is_v6() {
                "ipv6"@
            } else {
                "ip"@
            },
            "delete"@,
            "route"@,
            s.prefix(),
            tun,
        ],
        Platform::MacOs => seq![
            "route"@,
            "-n"@,
            "delete"@,
            if s.is_v6() {
                "-inet6"@
            } else {
                "-net"@
            },
            s.prefix(),
        ],
    }
}

/// The command that keeps the server reachable outside the tunnel: through the
/// gateway for an IPv4 server, through the upstream interface for an IPv6 one.
pub open spec fn add_bypass(p: Platform, server: IpAddr, gateway: Seq<char>, interface: Seq<char>) -> Seq<Seq<char>> {
    match (p, server) {
        (Platform::Windows, IpAddr::V4(_)) => seq![
            "route"@,
            "add"@,
            server.text(),
            "mask"@,
            "255.255.255.255"@,
            gateway,
        ],
        (Platform::Windows, IpAddr::V6(_)) => seq![
            "netsh"@,
            "interface"@,
            "ipv6"@,
            "add"@,
            "route"@,
            server.text() + "/128"@,
            interface,
        ],
        (Platform::MacOs, IpAddr::V4(_)) => seq!["route"@, "-n"@, "add"@, "-host"@, server.text(), gateway],
        (Platform::MacOs, IpAddr::V6(_)) => seq![
            "route"@,
            "-n"@,
            "add"@,
            "-inet6"@,
            "-host"@,
            server.text(),
            "-interface"@,
            interface,
        ],
    }
}

/// The command that takes the server bypass away.
pub open spec fn delete_bypass(p: Platform, server: IpAddr, interface: Seq<char>) -> Seq<Seq<char>> {
    match (p, server) {
        (Platform::Windows, IpAddr::V4(_)) => seq!["route"@, "delete"@, server.text(), "mask"@, "255.255.255.255"@],
        (Platform::Windows, IpAddr::V6(_)) => seq![
            "netsh"@,
            "interface"@,
            "ipv6"@,
            "delete"@,
            "route"@,
            server.text() + "/128"@,
            interface,
        ],
        (Platform::MacOs, IpAddr::V4(_)) => seq!["route"@, "-n"@, "delete"@, "-host"@, server.text()],
        (Platform::MacOs, IpAddr::V6(_)) => seq!["route"@, "-n"@, "delete"@, "-inet6"@, "-host"@, server.text()],
    }
}

/// All setup commands. A loopback server has no bypass: the host's own loopback
/// route is more specific than the splits.
pub open spec fn setup_commands(
    p: Platform,
    tun: Seq<char>,
    server: IpAddr,
    gateway: Seq<char>,
    interface: Seq<char>,
    tun_ipv6: bool,
) -> Seq<SetupCommandView> {
    let splits = Seq::new(
        4,
        |i: int|
            SetupCommandView {
                argv: add_split(p, all_splits()[i], tun),
                fatal: all_splits()[i].is_v6() ==> tun_ipv6,
            },
    );
    if server.canonical_loopback() {
        splits
    } else {
        splits.push(SetupCommandView { argv: add_bypass(p, server, gateway, interface), fatal: true })
    }
}

/// The split deletions alone.
pub open spec fn split_teardown_commands(p: Platform, tun: Seq<char>) -> Seq<Seq<Seq<char>>> {
    Seq::new(4, |i: int| delete_split(p, all_splits()[i], tun))
}

/// All teardown commands.
pub open spec fn teardown_commands(
    p: Platform,
    tun: Seq<char>,
    server: IpAddr,
    interface: Seq<char>,
) -> Seq<Seq<Seq<char>>> {
    if server.canonical_loopback() {
        split_teardown_commands(p, tun)
    } else {
        split_teardown_commands(p, tun).push(delete_bypass(p, server, interface))
    }
}

fn add_split_argv(p: Platform, s: Split, tun_name: &str) -> (r: Vec<String>)
    ensures
        words(r@) == add_split(p, s, tun_name@),
{
    let r = match p {
        Platform::Windows => vec![
            "netsh".to_owned(),
            "interface".to_owned(),
            if s.v6() { "ipv6".to_owned() } else { "ip".to_owned() },
            "add".to_owned(),
            "route".to_owned(),
            s.prefix_text(),
            tun_name.to_owned(),
        ],
        Platform::MacOs => vec![
            "route".to_owned(),
            "-n".to_owned(),
            "add".to_owned(),
            if s.v6() { "-inet6".to_owned() } else { "-net".to_owned() },
            s.prefix_text(),
            "-interface".to_owned(),
            tun_name.to_owned(),
        ],
    };
    assert(words(r@) =~= add_split(p, s, tun_name@));
    r
}

fn delete_split_argv(p: Platform, s: Split, tun_name: &str) -> (r: Vec<String>)
    ensures
        words(r@) == delete_split(p, s, tun_name@),
{
    let r = match p {
        Platform::Windows => vec![
            "netsh".to_owned(),
            "interface".to_owned(),
            if s.v6() { "ipv6".to_owned() } else { "ip".to_owned() },
            "delete".to_owned(),
            "route".to_owned(),
            s.prefix_text(),
            tun_name.to_owned(),
        ],
        Platform::MacOs => vec![
            "route".to_owned(),
            "-n".to_owned(),
            "delete".to_owned(),
            if s.v6() { "-inet6".to_owned() } else { "-net".to_owned() },
            s.prefix_text(),
        ],
    };
    assert(words(r@) =~= delete_split(p, s, tun_name@));
    r
}

fn host_prefix(server_ip: IpAddr) -> (r: String)
    ensures
        r@ == server_ip.text() + "/128"@,
{
    let mut r = server_ip.to_text();
    r.append("/128");
    r
}

fn add_bypass_argv(p: Platform, server_ip: IpAddr, gateway: &GatewayInfo) -> (r: Vec<String>)
    ensures
        words(r@) == add_bypass(p, server_ip, gateway.gateway_ip.text(), gateway.interface_name@),
{
    let r = match (p, server_ip) {
        (Platform::Windows, IpAddr::V4(_)) => vec![
            "route".to_owned(),
            "add".to_owned(),
            server_ip.to_text(),
            "mask".to_owned(),
            "255.255.255.255".to_owned(),
            gateway.gateway_ip.to_text(),
        ],
        (Platform::Windows, IpAddr::V6(_)) => vec![
            "netsh".to_owned(),
            "interface".to_owned(),
            "ipv6".to_owned(),
            "add".to_owned(),
            "route".to_owned(),
            host_prefix(server_ip),
            gateway.interface_name.clone(),
        ],
        (Platform::MacOs, IpAddr::V4(_)) => vec![
            "route".to_owned(),
            "-n".to_owned(),
            "add".to_owned(),
            "-host".to_owned(),
            server_ip.to_text(),
            gateway.gateway_ip.to_text(),
        ],
        (Platform::MacOs, IpAddr::V6(_)) => vec![
            "route".to_owned(),
            "-n".to_owned(),
            "add".to_owned(),
            "-inet6".to_owned(),
            "-host".to_owned(),
            server_ip.to_text(),
            "-interface".to_owned(),
            gateway.interface_name.clone(),
        ],
    };
    assert(words(r@) =~= add_bypass(p, server_ip, gateway.gateway_ip.text(), gateway.interface_name@));
    r
}

fn delete_bypass_argv(p: Platform, server_ip: IpAddr, interface_name: &str) -> (r: Vec<String>)
    ensures
        words(r@) == delete_bypass(p, server_ip, interface_name@),
{
    let r = match (p, server_ip) {
        (Platform::Windows, IpAddr::V4(_)) => vec![
            "route".to_owned(),
            "delete".to_owned(),
            server_ip.to_text(),
            "mask".to_owned(),
            "255.255.255.255".to_owned(),
        ],
        (Platform::Windows, IpAddr::V6(_)) => vec![
            "netsh".to_owned(),
            "interface".to_owned(),
            "ipv6".to_owned(),
            "delete".to_owned(),
            "route".to_owned(),
            host_prefix(server_ip),
            interface_name.to_owned(),
        ],
        (Platform::MacOs, IpAddr::V4(_)) => vec![
            "route".to_owned(),
            "-n".to_owned(),
            "delete".to_owned(),
            "-host".to_owned(),
            server_ip.to_text(),
        ],
        (Platform::MacOs, IpAddr::V6(_)) => vec![
            "route".to_owned(),
            "-n".to_owned(),
            "delete".to_owned(),
            "-inet6".to_owned(),
            "-host".to_owned(),
            server_ip.to_text(),
        ],
    };
    assert(words(r@) =~= delete_bypass(p, server_ip, interface_name@));
    r
}

/// The commands that set the routes up on a platform.
pub fn platform_setup_commands(
    p: Platform,
    tun_name: &str,
    server_ip: IpAddr,
    gateway: &GatewayInfo,
    tun_ipv6_available: bool,
) -> (r: Vec<SetupCommand>)
    ensures
        setup_lines(r@) == setup_commands(
            p,
            tun_name@,
            server_ip,
            gateway.gateway_ip.text(),
            gateway.interface_name@,
            tun_ipv6_available,
        ),
        forall|i: int| 0 <= i < r.len() ==> names_route(p, server_ip, i, "add"@, words((#[trigger] r@[i]).argv@)),
{
    let mut cmds: Vec<SetupCommand> = vec![
        SetupCommand::fatal(add_split_argv(p, Split::LowV4, tun_name)),
        SetupCommand::fatal(add_split_argv(p, Split::HighV4, tun_name)),
        SetupCommand { argv: add_split_argv(p, Split::LowV6, tun_name), fatal: tun_ipv6_available },
        SetupCommand { argv: add_split_argv(p, Split::HighV6, tun_name), fatal: tun_ipv6_available },
    ];
    if !server_ip.to_canonical().is_loopback() {
        cmds.push(SetupCommand::fatal(add_bypass_argv(p, server_ip, gateway)));
    }
    assert(setup_lines(cmds@) =~= setup_commands(
        p,
        tun_name@,
        server_ip,
        gateway.gateway_ip.text(),
        gateway.interface_name@,
        tun_ipv6_available,
    ));
    assert forall|i: int| 0 <= i < cmds.len() implies names_route(
        p,
        server_ip,
        i,
        "add"@,
        words((#[trigger] cmds@[i]).argv@),
    ) by {
        assert(setup_lines(cmds@)[i].argv == words(cmds@[i].argv@));
        teardown_deletes_what_setup_adds(
            p,
            tun_name@,
            server_ip,
            gateway.gateway_ip.text(),
            gateway.interface_name@,
            tun_ipv6_available,
            i,
        );
    }
    cmds
}

/// The commands that tear the routes down on a platform: one for each route that
/// setting up adds, whatever the gateway and the tunnel's binding were.
pub fn platform_teardown_commands(p: Platform, tun_name: &str, server_ip: IpAddr, interface_name: &str) -> (r: Vec<
    Vec<String>,
>)
    ensures
        command_lines(r@) == teardown_commands(p, tun_name@, server_ip, interface_name@),
        forall|gateway: Seq<char>, tun_ipv6: bool|
            (#[trigger] setup_commands(p, tun_name@, server_ip, gateway, interface_name@, tun_ipv6)).len() == r.len(),
        forall|i: int| 0 <= i < r.len() ==> names_route(p, server_ip, i, "delete"@, words((#[trigger] r@[i])@)),
{
    let mut cmds = platform_split_route_teardown_commands(p, tun_name);
    if !server_ip.to_canonical().is_loopback() {
        cmds.push(delete_bypass_argv(p, server_ip, interface_name));
    }
    assert(command_lines(cmds@) =~= teardown_commands(p, tun_name@, server_ip, interface_name@));
    assert forall|i: int| 0 <= i < cmds.len() implies names_route(
        p,
        server_ip,
        i,
        "delete"@,
        words((#[trigger] cmds@[i])@),
    ) by {
        assert(command_lines(cmds@)[i] == words(cmds@[i]@));
        teardown_deletes_what_setup_adds(p, tun_name@, server_ip, seq![], interface_name@, true, i);
    }
    cmds
}

/// The commands that delete the splits on a platform: the first four of any
/// teardown, and never the server bypass.
pub fn platform_split_route_teardown_commands(p: Platform, tun_name: &str) -> (r: Vec<Vec<String>>)
    ensures
        command_lines(r@) == split_teardown_commands(p, tun_name@),
        r.len() == 4,
        forall|server: IpAddr, interface: Seq<char>|
            (#[trigger] teardown_commands(p, tun_name@, server, interface)).take(4) == command_lines(r@),
{
    let cmds: Vec<Vec<String>> = vec![
        delete_split_argv(p, Split::LowV4, tun_name),
        delete_split_argv(p, Split::HighV4, tun_name),
        delete_split_argv(p, Split::LowV6, tun_name),
        delete_split_argv(p, Split::HighV6, tun_name),
    ];
    assert(command_lines(cmds@) =~= split_teardown_commands(p, tun_name@));
    assert forall|server: IpAddr, interface: Seq<char>|
        (#[trigger] teardown_commands(p, tun_name@, server, interface)).take(4) == command_lines(cmds@) by {
        teardown_starts_with_the_splits(p, tun_name@, server, interface);
    }
    cmds
}

/// Build the commands that set up split routing: both halves of IPv4 and of IPv6
/// into the tunnel, then the server bypass unless the server is loopback.
///
/// An IPv6 server's bypass goes through the upstream interface, and the gateway
/// address is unused there.
pub fn build_setup_commands(
    platform: Platform,
    tun_name: &str,
    server_ip: IpAddr,
    gateway: &GatewayInfo,
    tun_ipv6_available: bool,
) -> (r: Vec<SetupCommand>)
    ensures
        setup_lines(r@) == setup_commands(
            platform,
            tun_name@,
            server_ip,
            gateway.gateway_ip.text(),
            gateway.interface_name@,
            tun_ipv6_available,
        ),
{
    platform_setup_commands(platform, tun_name, server_ip, gateway, tun_ipv6_available)
}

/// Build the commands that tear split routing down: the four splits and the
/// server bypass.
pub fn build_teardown_commands(
    platform: Platform,
    tun_name: &str,
    server_ip: IpAddr,
    interface_name: &str,
) -> (r: Vec<Vec<String>>)
    ensures
        command_lines(r@) == teardown_commands(platform, tun_name@, server_ip, interface_name@),
{
    platform_teardown_commands(platform, tun_name, server_ip, interface_name)
}

/// Build the commands that delete the four splits alone.
pub fn build_split_route_teardown_commands(platform: Platform, tun_name: &str) -> (r: Vec<Vec<String>>)
    ensures
        command_lines(r@) == split_teardown_commands(platform, tun_name@),
{
    platform_split_route_teardown_commands(platform, tun_name)
}

/// What the `i`-th route leads to, as the commands write it.
pub open spec fn destination(p: Platform, server: IpAddr, i: int) -> Seq<char> {
    if i < 4 {
        all_splits()[i].prefix()
    } else if p is Windows && server is V6 {
        server.text() + "/128"@
    } else {
        server.text()
    }
}

/// Where the `i`-th command has its verb.
pub open spec fn verb_at(p: Platform, server: IpAddr, i: int) -> int {
    match p {
        Platform::Windows => if i < 4 || server is V6 {
            3
        } else {
            1
        },
        Platform::MacOs => 2,
    }
}

/// Where the `i`-th command has its destination.
pub open spec fn destination_at(p: Platform, server: IpAddr, i: int) -> int {
    match p {
        Platform::Windows => if i < 4 || server is V6 {
            5
        } else {
            2
        },
        Platform::MacOs => if i < 4 || server is V4 {
            4
        } else {
            5
        },
    }
}

/// The command does this to the `i`-th route.
pub open spec fn names_route(p: Platform, server: IpAddr, i: int, verb: Seq<char>, argv: Seq<Seq<char>>) -> bool {
    &&& verb_at(p, server, i) < argv.len() && argv[verb_at(p, server, i)] == verb
    &&& destination_at(p, server, i) < argv.len() && argv[destination_at(p, server, i)] == destination(p, server, i)
}

/// Teardown deletes exactly what setup adds: one deletion for each addition, in the
/// same order, each of the same destination.
pub proof fn teardown_deletes_what_setup_adds(
    p: Platform,
    tun: Seq<char>,
    server: IpAddr,
    gateway: Seq<char>,
    interface: Seq<char>,
    tun_ipv6: bool,
    i: int,
)
    requires
        0 <= i < setup_commands(p, tun, server, gateway, interface, tun_ipv6).len(),
    ensures
        setup_commands(p, tun, server, gateway, interface, tun_ipv6).len() == teardown_commands(
            p,
            tun,
            server,
            interface,
        ).len(),
        names_route(
            p,
            server,
            i,
            "add"@,
            setup_commands(p, tun, server, gateway, interface, tun_ipv6)[i].argv,
        ),
        names_route(p, server, i, "delete"@, teardown_commands(p, tun, server, interface)[i]),
{
}

/// Every setup command but the IPv6 splits is fatal, those are fatal exactly where
/// the tunnel has an IPv6 binding, and none is left out.
pub proof fn only_the_ipv6_splits_may_fail(
    p: Platform,
    tun: Seq<char>,
    server: IpAddr,
    gateway: Seq<char>,
    interface: Seq<char>,
    tun_ipv6: bool,
    i: int,
)
    requires
        0 <= i < setup_commands(p, tun, server, gateway, interface, tun_ipv6).len(),
    ensures
        setup_commands(p, tun, server, gateway, interface, tun_ipv6)[i].fatal <==> (i == 2 || i == 3 ==> tun_ipv6),
        setup_commands(p, tun, server, gateway, interface, tun_ipv6).len() == if server.canonical_loopback() {
            4nat
        } else {
            5nat
        },
{
}

/// Tearing everything down starts with taking the splits back.
pub proof fn teardown_starts_with_the_splits(p: Platform, tun: Seq<char>, server: IpAddr, interface: Seq<char>)
    ensures
        teardown_commands(p, tun, server, interface).take(4) == split_teardown_commands(p, tun),
        split_teardown_commands(p, tun).len() == 4,
{
    assert(teardown_commands(p, tun, server, interface).take(4) =~= split_teardown_commands(p, tun));
}

/// A loopback server gets no bypass in either form: `127.0.0.0/8`, `::1`, and the
/// IPv4-mapped form of the first.
pub proof fn a_loopback_server_has_no_bypass(
    p: Platform,
    tun: Seq<char>,
    server: IpAddr,
    gateway: Seq<char>,
    interface: Seq<char>,
    tun_ipv6: bool,
)
    requires
        match server {
            IpAddr::V4(v4) => v4.loopback(),
            IpAddr::V6(v6) => v6.loopback() || (v6.mapped() && v6.mapped_octets()[0] == 127),
        },
    ensures
        setup_commands(p, tun, server, gateway, interface, tun_ipv6).len() == 4,
        teardown_commands(p, tun, server, interface).len() == 4,
{
}

} // verus!
