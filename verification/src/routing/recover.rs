//! Recovering, at a start, what a crashed run left behind.
//!
//! Routes are taken back only where a route-state file says that they were
//! installed: another engine's routes may be there too. The standing lockdown is
//! reconciled before the transient cover is swept, so that the sweep can be told to
//! leave a lockdown that is kept alone.

use vstd::prelude::*;
use crate::gateway::GatewayInfo;
use crate::routing::commands::{
    build_split_route_teardown_commands, build_teardown_commands, command_lines, names_route, setup_commands,
    split_teardown_commands, teardown_commands, teardown_deletes_what_setup_adds, Platform,
};
use crate::routing::failclosed::lockdown_state::{self, intent_of, Intent, LockdownState};
use crate::routing::install::{install_calls, route_record, InstallCallView, InstallReply, SystemRoutesView};
use crate::routing::recovery::{decide_cover_recovery, decided, CoverPresence, CoverRecovery, Recovery};
use crate::routing::run::BestEffortPhase;
use crate::routing::state::{self, RouteState, RouteStateView};
use crate::routing::state_file::Stored;

verus! {

/// One step of a recovery.
#[derive(Debug, Clone, PartialEq, Eq)]
pub enum RecoverCall {
    /// Run these commands, all of them.
    Cleanup(BestEffortPhase, Vec<Vec<String>>),
    /// Remove the route-state file.
    ClearRouteState,
    /// Find out whether a standing lockdown is there.
    Presence,
    /// Set the recorded intent to on.
    RecordIntentOn,
    /// Carry the decision out; the name is the tunnel's.
    RecoverLockdown(CoverRecovery, String),
    /// Take a transient cover down, keeping a standing one where told to.
    SweepCover(bool),
}

/// [`RecoverCall`] with its text as characters.
pub enum RecoverCallView {
    Cleanup(BestEffortPhase, Seq<Seq<Seq<char>>>),
    ClearRouteState,
    Presence,
    RecordIntentOn,
    RecoverLockdown(CoverRecovery, Seq<char>),
    SweepCover(bool),
}

impl View for RecoverCall {
    type V = RecoverCallView;

    open spec fn view(&self) -> RecoverCallView {
        match self {
            RecoverCall::Cleanup(phase, commands) => RecoverCallView::Cleanup(*phase, command_lines(commands@)),
            RecoverCall::ClearRouteState => RecoverCallView::ClearRouteState,
            RecoverCall::Presence => RecoverCallView::Presence,
            RecoverCall::RecordIntentOn => RecoverCallView::RecordIntentOn,
            RecoverCall::RecoverLockdown(action, name) => RecoverCallView::RecoverLockdown(*action, name@),
            RecoverCall::SweepCover(adopting) => RecoverCallView::SweepCover(*adopting),
        }
    }
}

/// What became of one step. Of everything but a presence only that it was tried
/// counts.
#[derive(Debug, Clone, Copy, PartialEq, Eq, Structural)]
pub enum RecoverReply {
    /// To [`RecoverCall::Presence`].
    Presence(CoverPresence),
    /// To every other call.
    Done,
}

/// The recorded routes are taken back, and the record removed whatever became of
/// that.
pub open spec fn route_calls(p: Platform, state: Option<RouteStateView>) -> Seq<RecoverCallView> {
    match state {
        Some(st) => seq![
            RecoverCallView::Cleanup(BestEffortPhase::RecoverSplit, split_teardown_commands(p, st.tun_name)),
            RecoverCallView::Cleanup(
                BestEffortPhase::RecoverBypass,
                teardown_commands(p, st.tun_name, st.server_ip, st.interface_name),
            ),
            RecoverCallView::ClearRouteState,
        ],
        None => seq![],
    }
}

/// The tunnel's name: the recorded one, else the configured one.
pub open spec fn tun_hint(state: Option<RouteStateView>, tun_name: Seq<char>) -> Seq<char> {
    match state {
        Some(st) => st.tun_name,
        None => tun_name,
    }
}

/// The decision is carried out: the intent is repaired before anything else, and the
/// transient cover is swept last and always.
pub open spec fn cover_calls(decision: Recovery, hint: Seq<char>) -> Seq<RecoverCallView> {
    (if decision.record_intent_on {
        seq![RecoverCallView::RecordIntentOn]
    } else {
        seq![]
    }) + seq![
        RecoverCallView::RecoverLockdown(decision.action, hint),
        RecoverCallView::SweepCover(decision.action is Adopt),
    ]
}

/// The presence that was found.
pub open spec fn found(r: RecoverReply) -> CoverPresence {
    match r {
        RecoverReply::Presence(presence) => presence,
        RecoverReply::Done => CoverPresence::Unreachable,
    }
}

/// The decision of a recovery, where `r` are the replies.
pub open spec fn recover_decision(
    p: Platform,
    state: Option<RouteStateView>,
    intent: Intent,
    r: Seq<RecoverReply>,
) -> Recovery {
    decided(intent, found(r[route_calls(p, state).len() as int]))
}

/// Every call of a recovery, where `r` are the replies.
pub open spec fn recover_calls(
    p: Platform,
    state: Option<RouteStateView>,
    tun_name: Seq<char>,
    intent: Intent,
    r: Seq<RecoverReply>,
) -> Seq<RecoverCallView> {
    route_calls(p, state) + seq![RecoverCallView::Presence] + cover_calls(
        recover_decision(p, state, intent, r),
        tun_hint(state, tun_name),
    )
}

enum RecoverAt {
    Split,
    Bypass,
    ClearState,
    Presence,
    RecordIntent(Recovery),
    Lockdown(Recovery),
    Sweep(Recovery),
    Over(Recovery),
}

/// A recovery under way.
pub struct RecoverRoutes {
    platform: Platform,
    state: Option<RouteState>,
    tun_name: String,
    intent: Intent,
    at: RecoverAt,
    replies: Ghost<Seq<RecoverReply>>,
}

pub open spec fn state_view(state: Option<RouteState>) -> Option<RouteStateView> {
    match state {
        Some(st) => Some(st@),
        None => None,
    }
}

impl RecoverRoutes {
    pub closed spec fn platform(self) -> Platform {
        self.platform
    }

    pub closed spec fn state(self) -> Option<RouteStateView> {
        state_view(self.state)
    }

    pub closed spec fn tun_name(self) -> Seq<char> {
        self.tun_name@
    }

    pub closed spec fn intent(self) -> Intent {
        self.intent
    }

    pub closed spec fn replies(self) -> Seq<RecoverReply> {
        self.replies@
    }

    pub open spec fn decision(self) -> Recovery {
        recover_decision(self.platform(), self.state(), self.intent(), self.replies())
    }

    pub open spec fn calls(self) -> Seq<RecoverCallView> {
        recover_calls(self.platform(), self.state(), self.tun_name(), self.intent(), self.replies())
    }

    /// Every call has been made.
    pub open spec fn over(self) -> bool {
        self.replies().len() == self.calls().len()
    }

    /// The call that is to be made now.
    pub open spec fn current(self) -> RecoverCallView {
        self.calls()[self.replies().len() as int]
    }

    pub closed spec fn wf(self) -> bool {
        let n = self.replies@.len();
        let base = route_calls(self.platform, self.state()).len();
        match self.at {
            RecoverAt::Split => n == 0 && self.state is Some,
            RecoverAt::Bypass => n == 1 && self.state is Some,
            RecoverAt::ClearState => n == 2 && self.state is Some,
            RecoverAt::Presence => n == base,
            RecoverAt::RecordIntent(d) => n == base + 1 && d == self.decision() && d.record_intent_on,
            RecoverAt::Lockdown(d) => d == self.decision() && n == base + if d.record_intent_on {
                2nat
            } else {
                1nat
            },
            RecoverAt::Sweep(d) => d == self.decision() && n == base + if d.record_intent_on {
                3nat
            } else {
                2nat
            },
            RecoverAt::Over(d) => d == self.decision() && n == self.calls().len(),
        }
    }

    fn hint(&self) -> (r: String)
        ensures
            r@ == tun_hint(self.state(), self.tun_name()),
    {
        match &self.state {
            Some(st) => st.tun_name.clone(),
            None => self.tun_name.clone(),
        }
    }

    /// The call to make now, `None` when the recovery is over.
    pub fn next(&self) -> (c: Option<RecoverCall>)
        requires
            self.wf(),
        ensures
            match c {
                Some(call) => self.replies().len() < self.calls().len() && call@ == self.current(),
                None => self.over(),
            },
    {
        match (&self.at, &self.state) {
            (RecoverAt::Split, Some(st)) => Some(
                RecoverCall::Cleanup(
                    BestEffortPhase::RecoverSplit,
                    build_split_route_teardown_commands(self.platform, st.tun_name.as_str()),
                ),
            ),
            (RecoverAt::Bypass, Some(st)) => Some(
                RecoverCall::Cleanup(
                    BestEffortPhase::RecoverBypass,
                    build_teardown_commands(
                        self.platform,
                        st.tun_name.as_str(),
                        st.server_ip,
                        st.interface_name.as_str(),
                    ),
                ),
            ),
            (RecoverAt::ClearState, _) => Some(RecoverCall::ClearRouteState),
            (RecoverAt::Presence, _) => Some(RecoverCall::Presence),
            (RecoverAt::RecordIntent(_), _) => Some(RecoverCall::RecordIntentOn),
            (RecoverAt::Lockdown(d), _) => Some(RecoverCall::RecoverLockdown(d.action, self.hint())),
            (RecoverAt::Sweep(d), _) => Some(RecoverCall::SweepCover(d.action == CoverRecovery::Adopt)),
            _ => None,
        }
    }

    /// Take what became of the call that [`RecoverRoutes::next`] handed out.
    pub fn feed(self, reply: RecoverReply) -> (m: Self)
        requires
            self.wf(),
            !self.over(),
            reply is Presence <==> self.current() is Presence,
        ensures
            m.wf(),
            m.platform() == self.platform(),
            m.state() == self.state(),
            m.tun_name() == self.tun_name(),
            m.intent() == self.intent(),
            m.replies() == self.replies().push(reply),
    {
        let ghost r = self.replies@.push(reply);
        let at = match self.at {
            RecoverAt::Split => RecoverAt::Bypass,
            RecoverAt::Bypass => RecoverAt::ClearState,
            RecoverAt::ClearState => RecoverAt::Presence,
            RecoverAt::Presence => {
                let presence = match reply {
                    RecoverReply::Presence(presence) => presence,
                    RecoverReply::Done => CoverPresence::Unreachable,
                };
                let d = decide_cover_recovery(self.intent, presence);
                if d.record_intent_on {
                    RecoverAt::RecordIntent(d)
                } else {
                    RecoverAt::Lockdown(d)
                }
            }
            RecoverAt::RecordIntent(d) => RecoverAt::Lockdown(d),
            RecoverAt::Lockdown(d) => RecoverAt::Sweep(d),
            RecoverAt::Sweep(d) => RecoverAt::Over(d),
            RecoverAt::Over(d) => RecoverAt::Over(d),
        };
        RecoverRoutes {
            platform: self.platform,
            state: self.state,
            tun_name: self.tun_name,
            intent: self.intent,
            at,
            replies: Ghost(r),
        }
    }

    /// The decision about the standing lockdown, once the recovery is over.
    pub fn finish(self) -> (r: Recovery)
        requires
            self.wf(),
            self.over(),
        ensures
            r == self.decision(),
    {
        match self.at {
            RecoverAt::Over(d) => d,
            _ => decide_cover_recovery(self.intent, CoverPresence::Unreachable),
        }
    }
}

/// Start a recovery from the recorded routes, the configured tunnel name and the
/// recorded intent.
pub fn recover_routes_with(
    platform: Platform,
    route_state: Option<RouteState>,
    tun_name: &str,
    intent: Intent,
) -> (m: RecoverRoutes)
    ensures
        m.wf(),
        m.platform() == platform,
        m.state() == state_view(route_state),
        m.tun_name() == tun_name@,
        m.intent() == intent,
        m.replies().len() == 0,
{
    let at = if route_state.is_some() {
        RecoverAt::Split
    } else {
        RecoverAt::Presence
    };
    RecoverRoutes {
        platform,
        state: route_state,
        tun_name: tun_name.to_owned(),
        intent,
        at,
        replies: Ghost(Seq::empty()),
    }
}

/// Start a recovery from what the disk held.
pub fn recover_routes(
    platform: Platform,
    routes: Stored<RouteState>,
    tun_name: &str,
    intent: Stored<LockdownState>,
) -> (m: RecoverRoutes)
    ensures
        m.wf(),
        m.platform() == platform,
        m.state() == state_view(
            match routes {
                Stored::Parsed(s) if s.version == state::SCHEMA_VERSION => Some(s),
                _ => None,
            },
        ),
        m.tun_name() == tun_name@,
        m.intent() == intent_of(intent),
        m.replies().len() == 0,
{
    let intent = lockdown_state::load_intent(intent);
    recover_routes_with(platform, state::load(routes), tun_name, intent)
}

/// Without a record of routes no route command is issued: another engine's routes are
/// left alone.
pub proof fn no_record_no_route_command(
    p: Platform,
    tun_name: Seq<char>,
    intent: Intent,
    r: Seq<RecoverReply>,
    i: int,
)
    requires
        0 <= i < recover_calls(p, None, tun_name, intent, r).len(),
    ensures
        !(recover_calls(p, None, tun_name, intent, r)[i] is Cleanup),
        !(recover_calls(p, None, tun_name, intent, r)[i] is ClearRouteState),
{
}

/// The transient cover is swept in every recovery, last, and a standing lockdown is
/// kept from it exactly where the decision keeps it.
pub proof fn the_transient_sweep_always_runs(
    p: Platform,
    state: Option<RouteStateView>,
    tun_name: Seq<char>,
    intent: Intent,
    r: Seq<RecoverReply>,
)
    ensures
        recover_calls(p, state, tun_name, intent, r).last() == RecoverCallView::SweepCover(
            recover_decision(p, state, intent, r).action is Adopt,
        ),
{
}

/// The intent is repaired before the decision is carried out.
pub proof fn the_intent_is_repaired_before_acting(
    p: Platform,
    state: Option<RouteStateView>,
    tun_name: Seq<char>,
    intent: Intent,
    r: Seq<RecoverReply>,
    i: int,
)
    requires
        0 <= i < recover_calls(p, state, tun_name, intent, r).len(),
        recover_calls(p, state, tun_name, intent, r)[i] is RecoverLockdown,
    ensures
        0 < i,
        recover_decision(p, state, intent, r).record_intent_on ==> recover_calls(p, state, tun_name, intent, r)[i
            - 1] is RecordIntentOn,
        !recover_decision(p, state, intent, r).record_intent_on ==> recover_calls(p, state, tun_name, intent, r)[i
            - 1] is Presence,
{
}

/// What an install records before it touches a route is enough to undo it after a
/// crash, however far the setup came: a start that reads the record deletes every
/// route that the setup adds, and then removes the record.
pub proof fn a_recovery_undoes_an_install(
    p: Platform,
    routes: SystemRoutesView,
    gateway: GatewayInfo,
    tun_ipv6: bool,
    installed: Seq<InstallReply>,
    tun_name: Seq<char>,
    intent: Intent,
    r: Seq<RecoverReply>,
)
    requires
        routes.interface_name == gateway.interface_name@,
    ensures
        ({
            let record = route_record(routes);
            let adds = setup_commands(
                p,
                routes.tun_name,
                routes.server_ip,
                gateway.gateway_ip.text(),
                gateway.interface_name@,
                tun_ipv6,
            );
            let calls = recover_calls(p, Some(record), tun_name, intent, r);
            &&& install_calls(routes, gateway, installed)[0] == InstallCallView::SaveState(record)
            &&& record.version == state::SCHEMA_VERSION
            &&& calls[0] is Cleanup
            &&& calls[1] is Cleanup
            &&& calls[1]->Cleanup_1.len() == adds.len()
            &&& forall|i: int|
                0 <= i < adds.len() ==> names_route(p, routes.server_ip, i, "add"@, (#[trigger] adds[i]).argv)
                    && names_route(p, routes.server_ip, i, "delete"@, calls[1]->Cleanup_1[i])
            &&& calls[2] is ClearRouteState
        }),
{
    let adds = setup_commands(
        p,
        routes.tun_name,
        routes.server_ip,
        gateway.gateway_ip.text(),
        gateway.interface_name@,
        tun_ipv6,
    );
    let calls = recover_calls(p, Some(route_record(routes)), tun_name, intent, r);
    assert(calls[1]->Cleanup_1 == teardown_commands(p, routes.tun_name, routes.server_ip, routes.interface_name));
    assert forall|i: int| 0 <= i < adds.len() implies names_route(
        p,
        routes.server_ip,
        i,
        "add"@,
        (#[trigger] adds[i]).argv,
    ) && names_route(p, routes.server_ip, i, "delete"@, calls[1]->Cleanup_1[i]) by {
        teardown_deletes_what_setup_adds(
            p,
            routes.tun_name,
            routes.server_ip,
            gateway.gateway_ip.text(),
            gateway.interface_name@,
            tun_ipv6,
            i,
        );
    }
    teardown_deletes_what_setup_adds(
        p,
        routes.tun_name,
        routes.server_ip,
        gateway.gateway_ip.text(),
        gateway.interface_name@,
        tun_ipv6,
        0,
    );
}

} // verus!
