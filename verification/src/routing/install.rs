//! Installing the split routes, and taking them back.

use vstd::prelude::*;
use crate::error::{RouteCommandError, RoutingError, RoutingErrorView};
use crate::gateway::GatewayInfo;
use crate::ip::IpAddr;
use crate::routing::failclosed::facade::CoverGuard;
use crate::routing::failclosed::release::warning_view;
use crate::routing::run::CleanupReport;
use crate::routing::state::{RouteState, RouteStateView, SCHEMA_VERSION};

verus! {

/// Routing as the engine uses it: every change to the host's routes and covers goes
/// through it.
pub trait Routing {
    /// Holds the routes in place; giving it up takes them back.
    type Installed;

    /// Holds a cover in place; giving it up takes it down.
    type Cover: CoverGuard;

    /// Install the split routes. On a failure the host is left as it was.
    fn install(&self, tun_name: &str, server_ip: IpAddr, gateway: &GatewayInfo) -> (r: Result<
        Self::Installed,
        RoutingError,
    >);

    /// The gateway that the next install's bypass goes through.
    fn default_gateway(&self) -> (r: Result<GatewayInfo, RoutingError>);

    /// Block all egress but loopback, the server and, where one is given, the
    /// resolver. The tunnel is not permitted.
    fn install_failclosed_cover(&self, server_ip: IpAddr, resolver_ip: Option<IpAddr>) -> (r: Result<
        Self::Cover,
        RoutingError,
    >);

    /// Block all egress but loopback, the server and the tunnel, and on Windows the
    /// given programs.
    fn install_lockdown(&self, server_ip: IpAddr, tun_name: &str, app_ids: &[String]) -> (r: Result<
        Self::Cover,
        RoutingError,
    >);

    /// Release every cover this provider can install, without asking whether it is
    /// there.
    fn release_all_covers(&self) -> (r: Result<(), RoutingError>);
}

/// The routes of one install.
#[derive(Debug, Clone, PartialEq, Eq)]
pub struct SystemRoutes {
    pub tun_name: String,
    pub server_ip: IpAddr,
    pub interface_name: String,
}

/// [`SystemRoutes`] with its names as characters.
pub struct SystemRoutesView {
    pub tun_name: Seq<char>,
    pub server_ip: IpAddr,
    pub interface_name: Seq<char>,
}

impl View for SystemRoutes {
    type V = SystemRoutesView;

    open spec fn view(&self) -> SystemRoutesView {
        SystemRoutesView {
            tun_name: self.tun_name@,
            server_ip: self.server_ip,
            interface_name: self.interface_name@,
        }
    }
}

/// One step of taking installed routes back.
#[derive(Debug, Clone, PartialEq, Eq)]
pub enum UninstallCall {
    /// Tear the routes down, all of them: the tunnel, the server and the upstream
    /// interface.
    Teardown(String, IpAddr, String),
    /// Remove the route-state file.
    ClearState,
    /// Remove the tunnel's adapter where it is still there.
    RemoveAdapter(String),
}

/// [`UninstallCall`] with its names as characters.
pub enum UninstallCallView {
    Teardown(Seq<char>, IpAddr, Seq<char>),
    ClearState,
    RemoveAdapter(Seq<char>),
}

impl View for UninstallCall {
    type V = UninstallCallView;

    open spec fn view(&self) -> UninstallCallView {
        match self {
            UninstallCall::Teardown(tun, server, interface) => UninstallCallView::Teardown(tun@, *server, interface@),
            UninstallCall::ClearState => UninstallCallView::ClearState,
            UninstallCall::RemoveAdapter(tun) => UninstallCallView::RemoveAdapter(tun@),
        }
    }
}

/// The calls that take installed routes back, whatever becomes of each: the record
/// is needed after a crash alone, so it goes even where a deletion failed.
pub open spec fn uninstall_calls(routes: SystemRoutesView) -> Seq<UninstallCallView> {
    seq![
        UninstallCallView::Teardown(routes.tun_name, routes.server_ip, routes.interface_name),
        UninstallCallView::ClearState,
        UninstallCallView::RemoveAdapter(routes.tun_name),
    ]
}

/// What the log says where a call fails. Route commands log for themselves, and
/// removing an adapter has no outcome.
pub open spec fn uninstall_warning(call: UninstallCallView) -> Option<Seq<char>> {
    match call {
        UninstallCallView::ClearState => Some("state-file clear failed in SystemRoutes::drop"@),
        _ => None,
    }
}

/// Installed routes being taken back.
pub struct Uninstall {
    routes: SystemRoutes,
    done: u8,
}

impl Uninstall {
    pub closed spec fn routes(self) -> SystemRoutesView {
        self.routes@
    }

    /// How many calls have been made.
    pub closed spec fn made(self) -> nat {
        self.done as nat
    }

    pub open spec fn calls(self) -> Seq<UninstallCallView> {
        uninstall_calls(self.routes())
    }

    pub closed spec fn wf(self) -> bool {
        self.done <= 3
    }

    /// The call to make now, `None` when the routes have been dealt with.
    pub fn next(&self) -> (c: Option<UninstallCall>)
        requires
            self.wf(),
        ensures
            match c {
                Some(call) => self.made() < self.calls().len() && call@ == self.calls()[self.made() as int],
                None => self.made() == self.calls().len(),
            },
    {
        if self.done == 0 {
            Some(
                UninstallCall::Teardown(
                    self.routes.tun_name.clone(),
                    self.routes.server_ip,
                    self.routes.interface_name.clone(),
                ),
            )
        } else if self.done == 1 {
            Some(UninstallCall::ClearState)
        } else if self.done == 2 {
            Some(UninstallCall::RemoveAdapter(self.routes.tun_name.clone()))
        } else {
            None
        }
    }

    /// What to log where the call that [`Uninstall::next`] handed out fails.
    pub fn warning(&self) -> (w: Option<&'static str>)
        requires
            self.wf(),
            self.made() < self.calls().len(),
        ensures
            warning_view(w) == uninstall_warning(self.calls()[self.made() as int]),
    {
        if self.done == 1 {
            Some("state-file clear failed in SystemRoutes::drop")
        } else {
            None
        }
    }

    /// Go on once the call that [`Uninstall::next`] handed out was made, whatever
    /// became of it.
    pub fn feed(self) -> (m: Self)
        requires
            self.wf(),
            self.made() < self.calls().len(),
        ensures
            m.wf(),
            m.routes() == self.routes(),
            m.made() == self.made() + 1,
    {
        Uninstall { routes: self.routes, done: self.done + 1 }
    }
}

impl SystemRoutes {
    /// Start taking the routes back.
    pub fn uninstall(self) -> (m: Uninstall)
        ensures
            m.wf(),
            m.routes() == self@,
            m.made() == 0,
    {
        Uninstall { routes: self, done: 0 }
    }
}

/// One step of an install.
#[derive(Debug, Clone, PartialEq, Eq)]
pub enum InstallCall {
    /// Write the route-state file.
    SaveState(RouteState),
    /// Set the routes up: the tunnel, the server and the gateway.
    Setup(String, IpAddr, GatewayInfo),
    /// Tear the routes down, all of them: the tunnel, the server and the upstream
    /// interface.
    Teardown(String, IpAddr, String),
    /// Remove the route-state file.
    ClearState,
}

/// [`InstallCall`] with its names as characters.
pub enum InstallCallView {
    SaveState(RouteStateView),
    Setup(Seq<char>, IpAddr, GatewayInfo),
    Teardown(Seq<char>, IpAddr, Seq<char>),
    ClearState,
}

impl View for InstallCall {
    type V = InstallCallView;

    open spec fn view(&self) -> InstallCallView {
        match self {
            InstallCall::SaveState(st) => InstallCallView::SaveState(st@),
            InstallCall::Setup(tun, server, gateway) => InstallCallView::Setup(tun@, *server, *gateway),
            InstallCall::Teardown(tun, server, interface) => InstallCallView::Teardown(tun@, *server, interface@),
            InstallCall::ClearState => InstallCallView::ClearState,
        }
    }
}

/// What became of one step.
#[derive(Debug, PartialEq, Eq)]
pub enum InstallReply {
    /// To [`InstallCall::SaveState`], an error in the operating system's words.
    Saved(Result<(), String>),
    /// To [`InstallCall::Setup`].
    SetUp(Result<(), RouteCommandError>),
    /// To [`InstallCall::Teardown`].
    TornDown(CleanupReport),
    /// To [`InstallCall::ClearState`].
    Cleared(Result<(), String>),
}

/// A reply is of the kind that a call asks for.
pub open spec fn install_fits(reply: InstallReply, call: InstallCallView) -> bool {
    match call {
        InstallCallView::SaveState(_) => reply is Saved,
        InstallCallView::Setup(_, _, _) => reply is SetUp,
        InstallCallView::Teardown(_, _, _) => reply is TornDown,
        InstallCallView::ClearState => reply is Cleared,
    }
}

/// The record of the routes that are about to be installed.
pub open spec fn route_record(routes: SystemRoutesView) -> RouteStateView {
    RouteStateView {
        version: SCHEMA_VERSION,
        tun_name: routes.tun_name,
        server_ip: routes.server_ip,
        interface_name: routes.interface_name,
    }
}

pub open spec fn save_failed(r: Seq<InstallReply>) -> bool {
    r[0] is Saved && r[0]->Saved_0 is Err
}

pub open spec fn setup_failed(r: Seq<InstallReply>) -> bool {
    r[1] is SetUp && r[1]->SetUp_0 is Err
}

/// The setup of these routes.
pub open spec fn setup_call(routes: SystemRoutesView, gateway: GatewayInfo) -> InstallCallView {
    InstallCallView::Setup(routes.tun_name, routes.server_ip, gateway)
}

/// The teardown of these routes.
pub open spec fn teardown_call(routes: SystemRoutesView) -> InstallCallView {
    InstallCallView::Teardown(routes.tun_name, routes.server_ip, routes.interface_name)
}

/// The calls of an install, where `r` are their replies: the record comes before any
/// route, and a setup that failed is rolled back in full.
pub open spec fn install_calls(
    routes: SystemRoutesView,
    gateway: GatewayInfo,
    r: Seq<InstallReply>,
) -> Seq<InstallCallView> {
    let save = InstallCallView::SaveState(route_record(routes));
    if save_failed(r) {
        seq![save]
    } else if setup_failed(r) {
        seq![save, setup_call(routes, gateway), teardown_call(routes), InstallCallView::ClearState]
    } else {
        seq![save, setup_call(routes, gateway)]
    }
}

/// The outcome of an install.
pub open spec fn install_result(routes: SystemRoutesView, r: Seq<InstallReply>) -> Result<
    SystemRoutesView,
    RoutingErrorView,
> {
    if save_failed(r) {
        Err(RoutingErrorView::RouteSetup("failed to persist route-state: "@ + r[0]->Saved_0->Err_0@))
    } else if setup_failed(r) {
        Err(RoutingErrorView::RouteSetup(r[1]->SetUp_0->Err_0.text()))
    } else {
        Ok(routes)
    }
}

pub open spec fn routes_view(r: Result<SystemRoutes, RoutingError>) -> Result<SystemRoutesView, RoutingErrorView> {
    match r {
        Ok(routes) => Ok(routes@),
        Err(e) => Err(e@),
    }
}

enum InstallAt {
    Save,
    Setup,
    Teardown,
    Clear,
    Over,
}

/// An install under way.
pub struct Install {
    routes: SystemRoutes,
    gateway: GatewayInfo,
    failure: Option<RoutingError>,
    at: InstallAt,
    replies: Ghost<Seq<InstallReply>>,
}

impl Install {
    pub closed spec fn routes(self) -> SystemRoutesView {
        self.routes@
    }

    pub closed spec fn gateway(self) -> GatewayInfo {
        self.gateway
    }

    pub closed spec fn replies(self) -> Seq<InstallReply> {
        self.replies@
    }

    pub open spec fn calls(self) -> Seq<InstallCallView> {
        install_calls(self.routes(), self.gateway(), self.replies())
    }

    /// Every call has been made.
    pub open spec fn over(self) -> bool {
        self.replies().len() == self.calls().len()
    }

    /// The call that is to be made now.
    pub open spec fn current(self) -> InstallCallView {
        self.calls()[self.replies().len() as int]
    }

    spec fn rolling_back(self) -> bool {
        let r = self.replies@;
        &&& r.len() >= 2
        &&& r[0] is Saved && r[0]->Saved_0 is Ok
        &&& r[1] is SetUp && r[1]->SetUp_0 is Err
        &&& self.failure matches Some(e) && e@ == RoutingErrorView::RouteSetup(r[1]->SetUp_0->Err_0.text())
    }

    pub closed spec fn wf(self) -> bool {
        let r = self.replies@;
        match self.at {
            InstallAt::Save => r.len() == 0 && self.failure is None,
            InstallAt::Setup => r.len() == 1 && r[0] is Saved && r[0]->Saved_0 is Ok && self.failure is None,
            InstallAt::Teardown => r.len() == 2 && self.rolling_back(),
            InstallAt::Clear => r.len() == 3 && self.rolling_back(),
            InstallAt::Over => {
                &&& r.len() == install_calls(self.routes@, self.gateway, r).len()
                &&& match install_result(self.routes@, r) {
                    Ok(_) => self.failure is None,
                    Err(e) => self.failure matches Some(x) && x@ == e,
                }
            },
        }
    }

    /// The call to make now, `None` when the install is over.
    pub fn next(&self) -> (c: Option<InstallCall>)
        requires
            self.wf(),
        ensures
            match c {
                Some(call) => self.replies().len() < self.calls().len() && call@ == self.current(),
                None => self.over(),
            },
    {
        match &self.at {
            InstallAt::Save => Some(
                InstallCall::SaveState(
                    RouteState {
                        version: SCHEMA_VERSION,
                        tun_name: self.routes.tun_name.clone(),
                        server_ip: self.routes.server_ip,
                        interface_name: self.routes.interface_name.clone(),
                    },
                ),
            ),
            InstallAt::Setup => Some(
                InstallCall::Setup(self.routes.tun_name.clone(), self.routes.server_ip, clone_gateway(&self.gateway)),
            ),
            InstallAt::Teardown => Some(
                InstallCall::Teardown(
                    self.routes.tun_name.clone(),
                    self.routes.server_ip,
                    self.routes.interface_name.clone(),
                ),
            ),
            InstallAt::Clear => Some(InstallCall::ClearState),
            InstallAt::Over => None,
        }
    }

    /// Take what became of the call that [`Install::next`] handed out.
    pub fn feed(self, reply: InstallReply) -> (m: Self)
        requires
            self.wf(),
            !self.over(),
            install_fits(reply, self.current()),
        ensures
            m.wf(),
            m.routes() == self.routes(),
            m.gateway() == self.gateway(),
            m.replies() == self.replies().push(reply),
    {
        let ghost r = self.replies@.push(reply);
        let mut failure = self.failure;
        let mut at = InstallAt::Over;
        match self.at {
            InstallAt::Save => match reply {
                InstallReply::Saved(Err(e)) => {
                    let mut text = "failed to persist route-state: ".to_owned();
                    text.append(e.as_str());
                    failure = Some(RoutingError::RouteSetup(text));
                }
                _ => {
                    at = InstallAt::Setup;
                }
            },
            InstallAt::Setup => match reply {
                InstallReply::SetUp(Err(e)) => {
                    failure = Some(RoutingError::RouteSetup(e.message()));
                    at = InstallAt::Teardown;
                }
                _ => {}
            },
            InstallAt::Teardown => {
                at = InstallAt::Clear;
            }
            InstallAt::Clear => {}
            InstallAt::Over => {}
        }
        Install { routes: self.routes, gateway: self.gateway, failure, at, replies: Ghost(r) }
    }

    /// The outcome of an install that is over: the routes that are in place, or why
    /// there are none.
    pub fn finish(self) -> (r: Result<SystemRoutes, RoutingError>)
        requires
            self.wf(),
            self.over(),
        ensures
            routes_view(r) == install_result(self.routes(), self.replies()),
    {
        match self.failure {
            Some(e) => Err(e),
            None => Ok(self.routes),
        }
    }
}

fn clone_gateway(gateway: &GatewayInfo) -> (r: GatewayInfo)
    ensures
        r == *gateway,
{
    GatewayInfo {
        gateway_ip: gateway.gateway_ip,
        next_hop: gateway.next_hop,
        interface_name: gateway.interface_name.clone(),
        interface_index: gateway.interface_index,
        ipv6_available: gateway.ipv6_available,
    }
}

/// The engine's own routing: where its state files are, and who is to own them.
pub struct SystemRouting {
    state_dir: String,
    owner: Option<(u32, u32)>,
}

impl SystemRouting {
    pub closed spec fn directory(self) -> String {
        self.state_dir
    }

    pub closed spec fn owned_by(self) -> Option<(u32, u32)> {
        self.owner
    }

    pub fn new(state_dir: String, owner: Option<(u32, u32)>) -> (r: Self)
        ensures
            r.directory() == state_dir,
            r.owned_by() == owner,
    {
        SystemRouting { state_dir, owner }
    }

    /// Where the state files are.
    pub fn state_dir(&self) -> (r: &str)
        ensures
            r@ == self.directory()@,
    {
        self.state_dir.as_str()
    }

    /// The user and group the state files are handed to, if any.
    pub fn owner(&self) -> (r: Option<(u32, u32)>)
        ensures
            r == self.owned_by(),
    {
        self.owner
    }

    /// Start an install.
    pub fn install_with(&self, tun_name: &str, server_ip: IpAddr, gateway: &GatewayInfo) -> (m: Install)
        ensures
            m.wf(),
            m.routes() == (SystemRoutesView {
                tun_name: tun_name@,
                server_ip,
                interface_name: gateway.interface_name@,
            }),
            m.gateway() == *gateway,
            m.replies().len() == 0,
    {
        Install {
            routes: SystemRoutes {
                tun_name: tun_name.to_owned(),
                server_ip,
                interface_name: gateway.interface_name.clone(),
            },
            gateway: clone_gateway(gateway),
            failure: None,
            at: InstallAt::Save,
            replies: Ghost(Seq::empty()),
        }
    }
}

/// No route is touched unless the record was written before.
pub proof fn routes_are_recorded_before_they_are_set(
    routes: SystemRoutesView,
    gateway: GatewayInfo,
    r: Seq<InstallReply>,
    i: int,
)
    requires
        0 <= i < install_calls(routes, gateway, r).len(),
        !(install_calls(routes, gateway, r)[i] is SaveState),
    ensures
        0 < i,
        install_calls(routes, gateway, r)[0] == InstallCallView::SaveState(route_record(routes)),
        !save_failed(r),
{
}

/// A setup that failed is torn down and its record removed, and the install fails; an
/// install that succeeds tears nothing down and keeps its record.
pub proof fn a_failed_setup_is_rolled_back(routes: SystemRoutesView, gateway: GatewayInfo, r: Seq<InstallReply>)
    requires
        !save_failed(r),
    ensures
        install_result(routes, r) is Err <==> setup_failed(r),
        setup_failed(r) ==> install_calls(routes, gateway, r).skip(2) == seq![
            teardown_call(routes),
            InstallCallView::ClearState,
        ],
        !setup_failed(r) ==> install_calls(routes, gateway, r).len() == 2,
{
    if setup_failed(r) {
        assert(install_calls(routes, gateway, r).skip(2) =~= seq![teardown_call(routes), InstallCallView::ClearState]);
    }
}

} // verus!
