//! The covers as the rest of the engine uses them.

use vstd::prelude::*;
use crate::error::{CommandOutput, RoutingError};
use crate::ip::IpAddr;
use crate::routing::commands::Platform;
use crate::routing::failclosed::clearance::{
    sweep_with_witness, ArmingWitness, BootTimeSightings, Clearance, SiblingEvidence, SweepEnd, SweepOutcome,
};
use crate::routing::failclosed::disengage::{
    disengage, disengage_lockdown_with, fold_presence, folded_presence, record_view, Disengage, DisengageLockdown,
    Restore,
};
use crate::routing::failclosed::engage::{engage_with, CoverKind, Engage};
use crate::routing::failclosed::failclosed_state::FailClosedState;
use crate::routing::failclosed::lockdown::EngageLockdown;
use crate::routing::failclosed::lockdown_pf_state::{self, LockdownPfRecord, LockdownPfState};
use crate::routing::failclosed::luid::LuidResolver;
use crate::routing::failclosed::pf_output::{carries_label, pf_label_answer};
use crate::routing::failclosed::pf_rules::transient_ruleset;
use crate::routing::failclosed::release::{release_all_with, ReleaseAll};
use crate::routing::recovery::CoverRecovery;
use crate::routing::state_file::{StateFile, Stored};

verus! {

/// A guard over an engaged cover that can be given up without taking the cover
/// down, so that the cover outlives the process and the next start adopts it.
pub trait CoverGuard {
    /// Give the guard up and leave the cover in force.
    fn disarm(self);
}

/// An engaged cover.
pub struct Cover {
    token: String,
    kind: CoverKind,
}

/// How a cover is taken down.
pub enum CoverRelease {
    /// The transient cover, by its token.
    Transient(Disengage),
    /// The standing lockdown, by its record.
    Lockdown,
}

impl Cover {
    pub closed spec fn token(self) -> String {
        self.token
    }

    pub closed spec fn kind(self) -> CoverKind {
        self.kind
    }

    /// The cover that engaging left in force.
    pub fn new(token: String, kind: CoverKind) -> (r: Self)
        ensures
            r.token() == token,
            r.kind() == kind,
    {
        Cover { token, kind }
    }

    /// Take the cover down: the transient one by its own token, with the host's
    /// ruleset reloaded, and the lockdown by what its record says.
    pub fn release(self) -> (r: CoverRelease)
        ensures
            match self.kind() {
                CoverKind::Transient => r matches CoverRelease::Transient(m) && m.wf() && m.restore() == (Restore {
                    token: Some(self.token()),
                    adopting: false,
                }) && m.replies().len() == 0,
                CoverKind::Lockdown => r is Lockdown,
            },
    {
        match self.kind {
            CoverKind::Transient => CoverRelease::Transient(
                disengage(Restore { token: Some(self.token), adopting: false }),
            ),
            CoverKind::Lockdown => CoverRelease::Lockdown,
        }
    }
}

impl CoverGuard for Cover {
    fn disarm(self) {
    }
}

/// Start engaging the transient cover.
pub fn engage(server_ip: IpAddr, resolver_ip: Option<IpAddr>) -> (m: Engage)
    ensures
        m.wf(),
        m.ruleset() == transient_ruleset(server_ip, resolver_ip),
        m.replies().len() == 0,
{
    engage_with(server_ip, resolver_ip)
}

/// Where engaging the lockdown goes on.
pub enum LockdownEngage {
    /// On Windows the tunnel is permitted by its interface's identifier, and the
    /// programs by their paths.
    Windows { server_ip: IpAddr, luid: u64, app_ids: Vec<String> },
    /// On macOS it is permitted by its interface's name.
    MacOs(EngageLockdown),
}

fn copied(app_ids: &[String]) -> (r: Vec<String>)
    ensures
        r@ == app_ids@,
{
    let mut out: Vec<String> = Vec::new();
    let mut i: usize = 0;
    while i < app_ids.len()
        invariant
            i <= app_ids.len(),
            out@ == app_ids@.take(i as int),
        decreases app_ids.len() - i,
    {
        out.push(app_ids[i].clone());
        i = i + 1;
        assert(out@ =~= app_ids@.take(i as int));
    }
    assert(app_ids@.take(app_ids.len() as int) =~= app_ids@);
    out
}

/// On Windows, a resolved alias goes on to the filter engine with the server and the
/// programs, and one that did not resolve ends the engaging.
pub open spec fn is_windows_engage(
    server_ip: IpAddr,
    app_ids: Seq<String>,
    resolved: Result<u64, RoutingError>,
    r: Result<LockdownEngage, RoutingError>,
) -> bool {
    match resolved {
        Ok(identifier) => r matches Ok(LockdownEngage::Windows { server_ip: ip, luid, app_ids: ids }) && ip
            == server_ip && luid == identifier && ids@ == app_ids,
        Err(e) => r == Err::<LockdownEngage, RoutingError>(e),
    }
}

/// Engage the lockdown with what resolving the tunnel's alias came to, where the
/// platform asks for it.
pub fn engage_lockdown_resolved(
    platform: Platform,
    server_ip: IpAddr,
    tun_name: &str,
    resolved: Result<u64, RoutingError>,
    app_ids: &[String],
) -> (r: Result<LockdownEngage, RoutingError>)
    ensures
        match platform {
            Platform::Windows => is_windows_engage(server_ip, app_ids@, resolved, r),
            Platform::MacOs => r matches Ok(LockdownEngage::MacOs(m)) && m.wf() && m.tun_name() == tun_name@
                && m.server_ip() == server_ip && m.replies().len() == 0,
        },
{
    match platform {
        Platform::Windows => match resolved {
            Ok(luid) => Ok(LockdownEngage::Windows { server_ip, luid, app_ids: copied(app_ids) }),
            Err(e) => Err(e),
        },
        Platform::MacOs => Ok(
            LockdownEngage::MacOs(crate::routing::failclosed::lockdown::engage_lockdown(server_ip, tun_name)),
        ),
    }
}

/// Start engaging the lockdown. On Windows the tunnel's alias is resolved first, on
/// every call, and an alias that does not resolve ends it. macOS does not permit by
/// program.
pub fn engage_lockdown<R: LuidResolver>(
    platform: Platform,
    server_ip: IpAddr,
    tun_name: &str,
    resolver: &mut R,
    app_ids: &[String],
) -> (r: Result<LockdownEngage, RoutingError>)
    ensures
        platform is MacOs ==> *final(resolver) == *old(resolver),
        match platform {
            Platform::Windows => exists|resolved: Result<u64, RoutingError>|
                #[trigger] old(resolver).may_answer(tun_name@, resolved, *final(resolver)) && is_windows_engage(
                    server_ip,
                    app_ids@,
                    resolved,
                    r,
                ),
            Platform::MacOs => r matches Ok(LockdownEngage::MacOs(m)) && m.wf() && m.tun_name() == tun_name@
                && m.server_ip() == server_ip && m.replies().len() == 0,
        },
{
    match platform {
        Platform::Windows => {
            let resolved = resolver.resolve(tun_name);
            assert(old(resolver).may_answer(tun_name@, resolved, *resolver));
            engage_lockdown_resolved(platform, server_ip, tun_name, resolved, app_ids)
        }
        Platform::MacOs => engage_lockdown_resolved(platform, server_ip, tun_name, Ok(0), app_ids),
    }
}

/// Whether a recovery decision touches the host.
#[derive(Debug, Clone, Copy, PartialEq, Eq, Structural)]
pub enum RecoveryDispatch {
    Inert,
    Disengage,
}

/// Sort a recovery decision by whether it takes a cover down: a sweep alone does.
pub fn recovery_dispatch(decision: CoverRecovery) -> (r: RecoveryDispatch)
    ensures
        r is Disengage <==> decision is Sweep,
{
    match decision {
        CoverRecovery::Noop | CoverRecovery::Adopt => RecoveryDispatch::Inert,
        CoverRecovery::Sweep => RecoveryDispatch::Disengage,
    }
}

/// What a recovery decision comes to.
#[derive(Debug, Clone, PartialEq, Eq)]
pub enum LockdownRecovery {
    Nothing,
    /// Take back the tunnel's permit where its interface is gone.
    ReclaimTunPermit(String),
    /// Take the lockdown down. A failure is logged and ends nothing.
    Disengage,
}

/// Carry a recovery decision out. Keeping a cover takes back at most the permit of a
/// tunnel that is gone.
pub fn recover_lockdown(decision: CoverRecovery, tun_name: Option<&str>) -> (r: LockdownRecovery)
    ensures
        match decision {
            CoverRecovery::Sweep => r is Disengage,
            CoverRecovery::Noop => r is Nothing,
            CoverRecovery::Adopt => match tun_name {
                Some(name) => r matches LockdownRecovery::ReclaimTunPermit(n) && n@ == name@,
                None => r is Nothing,
            },
        },
{
    match recovery_dispatch(decision) {
        RecoveryDispatch::Inert => {
            if decision == CoverRecovery::Adopt {
                if let Some(name) = tun_name {
                    return LockdownRecovery::ReclaimTunPermit(name.to_owned());
                }
            }
            LockdownRecovery::Nothing
        }
        RecoveryDispatch::Disengage => LockdownRecovery::Disengage,
    }
}

/// Whether the tunnel's permit is to be taken back: on Windows, where its interface
/// no longer resolves. A running engine's own interface does resolve.
pub fn reclaim_stale_tun_permit(platform: Platform, resolved: &Result<u64, RoutingError>) -> (r: bool)
    ensures
        r == (platform is Windows && *resolved is Err),
{
    match platform {
        Platform::Windows => resolved.is_err(),
        Platform::MacOs => false,
    }
}

/// Start taking the lockdown down, from the listing of rule labels and what the disk
/// held.
pub fn disengage_lockdown(
    labels: Result<CommandOutput, RoutingError>,
    stored: Stored<LockdownPfRecord>,
) -> (m: DisengageLockdown)
    ensures
        m.wf(),
        m.presence() == folded_presence(
            match labels {
                Ok(o) if o.success => Some(carries_label(o.stdout@)),
                _ => None,
            },
            lockdown_pf_state::presence(stored),
        ),
        m.record() == record_view(
            match lockdown_pf_state::presence(stored) {
                StateFile::Present(st) => Some(st),
                _ => None,
            },
        ),
        m.replies().len() == 0,
{
    let file = lockdown_pf_state::load_presence(stored);
    let presence = fold_presence(pf_label_answer(labels), &file);
    let st: Option<LockdownPfState> = match file {
        StateFile::Present(st) => Some(st),
        _ => None,
    };
    disengage_lockdown_with(presence, st)
}

/// Start releasing every cover, from what the disk held. No evidence of a cover is
/// asked for but the records.
pub fn release_all(transient: Stored<FailClosedState>, standing: Stored<LockdownPfRecord>) -> (m: ReleaseAll)
    ensures
        m.wf(),
        m.transient() == crate::routing::failclosed::failclosed_state::presence(transient)@,
        m.standing() == lockdown_pf_state::presence(standing)@,
        m.replies().len() == 0,
{
    release_all_with(
        crate::routing::failclosed::failclosed_state::load_presence(transient),
        lockdown_pf_state::load_presence(standing),
    )
}

/// A sweep of a platform without boot-time keys proved all there is to prove,
/// whether or not it failed.
pub fn sweep_outcome(result: Result<(), RoutingError>) -> (r: SweepOutcome)
    ensures
        r.cleared()@.unproven.len() == 0,
        r.cleared()@.sibling == SiblingEvidence::Absent,
        r.cleared()@.witness == ArmingWitness::Unset,
        r.cleared()@.boot_time == BootTimeSightings::Unseen,
        match result {
            Ok(()) => r.failed_with() is None,
            Err(e) => r.failed_with() == Some(e),
        },
{
    match result {
        Ok(()) => SweepOutcome::completed(Clearance::proven()),
        Err(e) => SweepOutcome::failed(Clearance::proven(), e),
    }
}

/// End a sweep on such a platform against the record `witness`: the record stays as
/// it is, and the sweep's own outcome is the result.
pub fn conclude_sweep(witness: ArmingWitness, result: Result<(), RoutingError>) -> (r: SweepEnd)
    ensures
        r.record is None,
        match result {
            Ok(()) => r.result matches Ok(c) && c@.unproven.len() == 0 && c@.leftover().len() == 0,
            Err(e) => r.result == Err::<Clearance, RoutingError>(e),
        },
{
    sweep_with_witness(witness, sweep_outcome(result))
}

/// On Windows a lockdown goes on with the server, the identifier and every program it
/// was asked for, in their order, and an alias that did not resolve is the outcome.
pub proof fn a_windows_lockdown_keeps_what_it_was_asked_for(
    server_ip: IpAddr,
    app_ids: Seq<String>,
    identifier: u64,
    e: RoutingError,
    r: Result<LockdownEngage, RoutingError>,
)
    ensures
        is_windows_engage(server_ip, app_ids, Ok(identifier), r) ==> r is Ok && r->Ok_0 is Windows
            && r->Ok_0->Windows_server_ip == server_ip && r->Ok_0->Windows_luid == identifier
            && r->Ok_0->Windows_app_ids@ == app_ids,
        is_windows_engage(server_ip, app_ids, Err(e), r) ==> r is Err && r->Err_0 == e,
{
}

} // verus!
