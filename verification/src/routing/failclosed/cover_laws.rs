//! What engaging and taking down a cover does, step by step, said of the records and
//! the replies alone.

use vstd::prelude::*;
use crate::error::RoutingErrorView;
use crate::routing::failclosed::disengage::{
    disengage_calls, disengage_warning, folded_presence, left_behind, lockdown_disengage_calls, lockdown_disengage_result,
};
use crate::routing::failclosed::engage::{
    cover_load_calls, engage_calls, engage_result, CoverKind, EngageCallView, EngageReplyView, LoadCallView,
};
use crate::routing::failclosed::failclosed_state::{self, FailClosedState, FailClosedStateView};
use crate::routing::failclosed::lockdown_pf_state::{self, LockdownPfRecord, LockdownPfState, LockdownPfStateView};
use crate::routing::failclosed::release::{
    release_calls, release_notice, release_result, release_warning, PfCallView, Replies,
};
use crate::routing::failclosed::ruleset_laws::{a_restore_carries_both_snapshots, carries};
use crate::routing::recovery::CoverPresence;
use crate::routing::state_file::{removal_outcome, RemoveFailure, StateFile, Stored};

verus! {

/// Every call of an engage was answered with a reply of its kind.
pub open spec fn engaged(ruleset: Seq<char>, r: Seq<EngageReplyView>) -> bool {
    let calls = engage_calls(ruleset, r);
    &&& r.len() == calls.len()
    &&& r.len() > 0 ==> r[0] is Enabled
    &&& r.len() > 1 ==> r[1] is Token
    &&& r.len() > 2 ==> r[2] is Done
    &&& r.len() > 3 ==> r[3] is Done
    &&& r.len() > 4 ==> r[4] is Done
}

/// Each step of engaging the transient cover comes in its place and rests on the one
/// before: the record holds the token that was taken and what was read of the packet
/// filter; the ruleset is loaded once the record is written; the state table is purged
/// once the ruleset is loaded; and what was taken is given back where a step failed.
pub proof fn what_each_step_of_an_engage_rests_on(ruleset: Seq<char>, r: Seq<EngageReplyView>, i: int)
    requires
        engaged(ruleset, r),
        0 <= i < r.len(),
    ensures
        match engage_calls(ruleset, r)[i] {
            EngageCallView::PfEnabled => i == 0,
            EngageCallView::EnableCaptureToken => i == 1,
            EngageCallView::SaveTransient(st) => {
                &&& i == 2
                &&& st.version == 1
                &&& r[1] == EngageReplyView::Token(Ok(st.pf_token))
                &&& match r[0]->Enabled_0 {
                    Ok(enabled) => st.pf_was_enabled == Some(enabled),
                    Err(_) => st.pf_was_enabled is None,
                }
            },
            EngageCallView::LoadRuleset(text) => i == 3 && text == ruleset && r[2]->Done_0 is Ok,
            EngageCallView::FlushStates => i == 4 && r[2]->Done_0 is Ok && r[3]->Done_0 is Ok,
            EngageCallView::DropToken(token) => i == 3 && r[2]->Done_0 is Err && r[1] == EngageReplyView::Token(
                Ok(token),
            ),
            EngageCallView::TransientRestore(token) => i == 4 && r[2]->Done_0 is Ok && r[3]->Done_0 is Err && r[1]
                == EngageReplyView::Token(Ok(token)),
        },
{
    assert(i == 0 || i == 1 || i == 2 || i == 3 || i == 4);
}

/// Engaging succeeds exactly where a token was taken, the record written and the
/// ruleset loaded, and then yields that token after a purge was tried. Otherwise the
/// step that failed says why.
pub proof fn an_engage_succeeds_iff_recorded_and_loaded(ruleset: Seq<char>, r: Seq<EngageReplyView>)
    requires
        engaged(ruleset, r),
    ensures
        r.len() >= 2,
        match r[1]->Token_0 {
            Err(e) => r.len() == 2 && engage_result(r) == Err::<Seq<char>, RoutingErrorView>(e),
            Ok(token) => r.len() >= 4 && match r[2]->Done_0 {
                Err(e) => r.len() == 4 && engage_result(r) == Err::<Seq<char>, RoutingErrorView>(e),
                Ok(()) => r.len() == 5 && match r[3]->Done_0 {
                    Err(e) => engage_result(r) == Err::<Seq<char>, RoutingErrorView>(e),
                    Ok(()) => engage_calls(ruleset, r)[4] is FlushStates && engage_result(r) == Ok::<
                        Seq<char>,
                        RoutingErrorView,
                    >(token),
                },
            },
        },
{
}

/// Loading a cover's ruleset loads that ruleset first. Only the transient cover purges
/// the state table, and it does so exactly once a load took effect.
pub proof fn only_a_loaded_transient_cover_purges(kind: CoverKind, ruleset: Seq<char>, r: Replies)
    ensures
        ({
            let calls = cover_load_calls(kind, ruleset, r);
            &&& calls.len() > 0 && calls[0] == LoadCallView::LoadRuleset(ruleset)
            &&& calls.contains(LoadCallView::FlushStates) <==> kind == CoverKind::Transient && r[0] is Ok
            &&& calls.contains(LoadCallView::FlushStates) ==> calls.len() == 2 && calls[1] is FlushStates
            &&& !calls.contains(LoadCallView::FlushStates) ==> calls.len() == 1
        }),
{
    let calls = cover_load_calls(kind, ruleset, r);
    if kind is Transient && r[0] is Ok {
        assert(calls[1] == LoadCallView::FlushStates);
    } else {
        assert(calls[0] is LoadRuleset);
    }
}

/// Taking a transient cover down drops the token on record, once and in every case,
/// reloads the host's ruleset first unless a standing cover is kept, and clears the
/// record last, unless that reload failed; then the log says so.
pub proof fn what_taking_a_transient_cover_down_does(token: Option<Seq<char>>, adopting: bool, r: Replies)
    ensures
        ({
            let calls = disengage_calls(token, adopting, r);
            let n: int = if adopting {
                0
            } else {
                1
            };
            let m = n + if token is Some {
                1int
            } else {
                0int
            };
            let cleared = adopting || r[0] is Ok;
            &&& !adopting ==> calls.len() > 0 && calls[0] is ReloadDefault
            &&& token matches Some(t) ==> calls.len() > n && calls[n] == PfCallView::DropToken(t)
            &&& cleared ==> calls.len() == m + 1 && calls[m] is ClearTransient
            &&& !cleared ==> calls.len() == m
            &&& left_behind(adopting, r) is None <==> cleared
        }),
{
}

/// Taking a standing lockdown down does nothing unless one is known to be there. Then
/// the captured rules are loaded, all of both snapshots, or the host's own ruleset
/// where none were captured; the recorded token is dropped only after that; the record
/// goes only after both; and the first of the two that fails is the outcome.
pub proof fn what_taking_a_lockdown_down_does(presence: CoverPresence, st: Option<LockdownPfStateView>, r: Replies)
    requires
        presence is Live || presence is Recorded,
    ensures
        ({
            let calls = lockdown_disengage_calls(presence, st, r);
            let result = lockdown_disengage_result(presence, st, r);
            &&& calls.len() > 0
            &&& if st is Some && st->0.main_snapshot_captured {
                calls[0] matches PfCallView::LoadRuleset(text) && carries(
                    text,
                    "set require-order no\nset block-policy drop\n"@,
                    st->0.nat_snapshot,
                    st->0.main_snapshot,
                )
            } else {
                calls[0] is ReloadDefault
            }
            &&& r[0] is Err ==> calls.len() == 1 && result == r[0]
            &&& r[0] is Ok && st is None ==> calls.len() == 2 && calls[1] is ClearStanding && result is Ok
            &&& r[0] is Ok && st is Some ==> {
                &&& calls.len() >= 2 && calls[1] == PfCallView::DropToken(st->0.pf_token)
                &&& r[1] is Err ==> calls.len() == 2 && result == r[1]
                &&& r[1] is Ok ==> calls.len() == 3 && calls[2] is ClearStanding && result is Ok
            }
        }),
{
    if let Some(st) = st {
        a_restore_carries_both_snapshots(st.nat_snapshot, st.main_snapshot);
    }
}

/// Where it is not known whether a lockdown is there, nothing is done and that is no
/// success; where it is known not to be there, nothing is done and that is one.
pub proof fn an_unknown_lockdown_is_left_and_reported(
    presence: CoverPresence,
    st: Option<LockdownPfStateView>,
    r: Replies,
)
    requires
        presence is Absent || presence is Indeterminate || presence is Unreachable,
    ensures
        lockdown_disengage_calls(presence, st, r).len() == 0,
        lockdown_disengage_result(presence, st, r) is Ok <==> presence == CoverPresence::Absent,
{
}

/// What is known of a standing lockdown: the packet filter's yes counts alone; without
/// it any record counts, also one that cannot be used; without a record the packet
/// filter's no counts, and its silence is no answer.
pub proof fn what_is_known_of_a_lockdown(pf_label: Option<bool>, file: StateFile<LockdownPfState>)
    ensures
        match (pf_label, file) {
            (Some(true), _) => folded_presence(pf_label, file) is Live,
            (_, StateFile::Present(_)) => folded_presence(pf_label, file) is Recorded,
            (_, StateFile::Unusable) => folded_presence(pf_label, file) is Recorded,
            (Some(false), StateFile::Absent) => folded_presence(pf_label, file) is Absent,
            (None, StateFile::Absent) => folded_presence(pf_label, file) is Unreachable,
        },
{
}

/// How many calls the transient cover has in a release.
pub open spec fn transient_len(t: StateFile<FailClosedStateView>, r: Replies) -> int {
    match t {
        StateFile::Absent => 0,
        StateFile::Present(_) => if r[0] is Ok {
            3
        } else {
            2
        },
        StateFile::Unusable => if r[0] is Ok {
            2
        } else {
            1
        },
    }
}

/// A release of the transient cover reloads the host's ruleset, drops the recorded
/// token whatever became of that, and clears the record where the reload succeeded. A
/// record that cannot be used names no token, and is a cover all the same.
pub proof fn what_releasing_the_transient_cover_does(
    t: StateFile<FailClosedStateView>,
    s: StateFile<LockdownPfStateView>,
    r: Replies,
)
    ensures
        ({
            let calls = release_calls(t, s, r);
            let n = transient_len(t, r);
            &&& calls.len() >= n
            &&& !(t is Absent) ==> calls[0] is ReloadDefault
            &&& t matches StateFile::Present(st) ==> calls[1] == PfCallView::DropToken(st.pf_token)
            &&& !(t is Absent) && r[0] is Ok ==> calls[n - 1] is ClearTransient
            &&& s is Absent ==> calls.len() == n
        }),
{
}

/// A release of the standing lockdown goes on after the transient cover's calls,
/// whatever became of them. It loads the captured rules, all of both snapshots, and
/// the host's own ruleset where they will not load or were never captured; it drops
/// the recorded token whatever became of that; and it clears the record where one of
/// the loads succeeded.
pub proof fn what_releasing_the_standing_cover_does(
    t: StateFile<FailClosedStateView>,
    s: StateFile<LockdownPfStateView>,
    r: Replies,
)
    requires
        r.len() >= transient_len(t, r) + 2,
        !(s is Absent),
    ensures
        ({
            let calls = release_calls(t, s, r);
            let n = transient_len(t, r);
            match s {
                StateFile::Absent => true,
                StateFile::Unusable => {
                    &&& calls[n] is ReloadDefault
                    &&& r[n] is Ok ==> calls.len() == n + 2 && calls[n + 1] is ClearStanding
                    &&& r[n] is Err ==> calls.len() == n + 1
                },
                StateFile::Present(st) => {
                    let m = n + if st.main_snapshot_captured && r[n] is Err {
                        2int
                    } else {
                        1int
                    };
                    let restored = r[m - 1] is Ok;
                    &&& if st.main_snapshot_captured {
                        calls[n] matches PfCallView::LoadRuleset(text) && carries(
                            text,
                            "set require-order no\nset block-policy drop\n"@,
                            st.nat_snapshot,
                            st.main_snapshot,
                        )
                    } else {
                        calls[n] is ReloadDefault
                    }
                    &&& m == n + 2 ==> calls[n + 1] is ReloadDefault
                    &&& calls[m] == PfCallView::DropToken(st.pf_token)
                    &&& restored ==> calls.len() == m + 2 && calls[m + 1] is ClearStanding
                    &&& !restored ==> calls.len() == m + 1
                },
            }
        }),
{
    let n = transient_len(t, r);
    assert(r.skip(n)[0] == r[n]);
    assert(r.skip(n)[1] == r[n + 1]);
    if let StateFile::Present(st) = s {
        a_restore_carries_both_snapshots(st.nat_snapshot, st.main_snapshot);
    }
}

/// A release fails with the transient cover's restore where that failed, and else with
/// the standing lockdown's where nothing restored the host: both errors are told where
/// a snapshot and the ruleset in its place failed. It fails for no other reason: a
/// token that could not be dropped and a record that could not be cleared do not fail
/// it.
pub proof fn a_release_fails_iff_a_restore_failed(
    t: StateFile<FailClosedStateView>,
    s: StateFile<LockdownPfStateView>,
    r: Replies,
)
    requires
        r.len() >= transient_len(t, r) + 2,
    ensures
        ({
            let n = transient_len(t, r);
            let result = release_result(t, s, r);
            if !(t is Absent) && r[0] is Err {
                result == r[0]
            } else {
                match s {
                    StateFile::Absent => result is Ok,
                    StateFile::Present(st) if st.main_snapshot_captured => if r[n] is Ok || r[n + 1] is Ok {
                        result is Ok
                    } else {
                        result == Err::<(), RoutingErrorView>(
                            RoutingErrorView::RouteSetup(
                                "snapshot restore failed ("@ + r[n]->Err_0.text()
                                    + "); default-ruleset fallback also failed ("@ + r[n + 1]->Err_0.text() + ")"@,
                            ),
                        )
                    },
                    _ => match r[n] {
                        Ok(_) => result is Ok,
                        Err(e) => result == Err::<(), RoutingErrorView>(e),
                    },
                }
            }
        }),
{
    let n = transient_len(t, r);
    assert(r.skip(n)[0] == r[n]);
    assert(r.skip(n)[1] == r[n + 1]);
}

/// A record is used exactly where the file parsed and has the version that is
/// written; a file that is there and is not used never passes for none.
pub proof fn a_record_is_used_iff_it_is_of_this_version(
    transient: Stored<FailClosedState>,
    standing: Stored<LockdownPfRecord>,
)
    ensures
        match transient {
            Stored::Missing => failclosed_state::presence(transient) is Absent,
            Stored::Parsed(s) if s.version == 1 => failclosed_state::presence(transient) == StateFile::Present(s),
            _ => failclosed_state::presence(transient) is Unusable,
        },
        match standing {
            Stored::Missing => lockdown_pf_state::presence(standing) is Absent,
            Stored::Parsed(s) if s.version == 1 => lockdown_pf_state::presence(standing) matches StateFile::Present(
                st,
            ) && st.version == 1 && st.pf_token == s.pf_token && st.main_snapshot == s.main_snapshot && st.nat_snapshot
                == s.nat_snapshot && st.main_snapshot_captured == (s.main_snapshot_captured != Some(false)),
            _ => lockdown_pf_state::presence(standing) is Unusable,
        },
{
}

/// Clearing a record fails exactly where a file is there and could not be removed, and
/// then in the operating system's words.
pub proof fn clearing_tolerates_only_absence(removed: Result<(), RemoveFailure>)
    ensures
        removal_outcome(removed) is Err <==> removed is Err && !(removed->Err_0 is NotFound),
        removed matches Err(RemoveFailure::Other(words)) ==> removal_outcome(removed) == Err::<(), String>(words),
{
}

/// A failure that does not show in the outcome is always logged: of a release, every
/// token that could not be dropped and every record that could not be cleared, named by
/// the cover it belongs to; and of a restore, which does show, nothing.
pub proof fn every_silent_failure_of_a_release_is_logged(
    t: StateFile<FailClosedStateView>,
    s: StateFile<LockdownPfStateView>,
    r: Replies,
)
    requires
        r.len() < release_calls(t, s, r).len(),
        r.len() > 0 || t is Absent,
    ensures
        ({
            let call = release_calls(t, s, r)[r.len() as int];
            let w = release_warning(t, s, r);
            let standing = r.len() >= transient_len(t, r);
            match call {
                PfCallView::ReloadDefault => w is None,
                PfCallView::LoadRuleset(_) => w is None,
                PfCallView::ClearTransient => w == Some("failclosed-state clear failed during release_all"@),
                PfCallView::ClearStanding => w == Some("lockdown-pf-state clear failed during release_all"@),
                PfCallView::DropToken(_) => if !standing {
                    w == Some("pfctl -X failed releasing the transient cover's pf refcount during release_all"@)
                } else if s->Present_0.main_snapshot_captured {
                    w == Some(
                        "pfctl -X failed releasing the standing cover's pf refcount during release_all after a snapshot restore"@,
                    )
                } else {
                    w == Some(
                        "pfctl -X failed releasing the standing cover's pf refcount during release_all after a default-ruleset restore"@,
                    )
                },
            }
        }),
{
}

/// The same of taking a transient cover down: what could not be dropped or cleared is
/// logged, and a reload that could not even be started.
pub proof fn every_silent_failure_of_a_disengage_is_logged(call: PfCallView)
    ensures
        call is DropToken ==> disengage_warning(call, true) is Some && disengage_warning(call, false) is Some,
        call is ClearTransient ==> disengage_warning(call, true) is Some && disengage_warning(call, false) is Some,
        call is ReloadDefault ==> disengage_warning(call, true) is None && disengage_warning(call, false) is Some,
{
}

/// A release says beforehand what it cannot do: drop a token or load a snapshot of a
/// record that cannot be used, and afterwards that the host's own ruleset stands in for
/// a snapshot that would not load. It says nothing else.
pub proof fn a_release_says_what_it_cannot_restore(
    t: StateFile<FailClosedStateView>,
    s: StateFile<LockdownPfStateView>,
    r: Replies,
)
    requires
        r.len() < release_calls(t, s, r).len(),
        r.len() > 0,
    ensures
        ({
            let n = transient_len(t, r);
            let k = r.len() as int;
            let stands_in = s is Present && s->Present_0.main_snapshot_captured && k == n + 2 && r[n] is Err && r[n + 1]
                is Ok;
            release_notice(t, s, r) is Some <==> (s is Unusable && k == n) || stands_in
        }),
        release_notice(t, s, Seq::empty()) is Some <==> t is Unusable || (t is Absent && s is Unusable),
{
}

/// A record's view holds each of its parts under its own name.
pub proof fn a_record_shows_each_part_as_it_is(
    standing: LockdownPfState,
    transient: FailClosedState,
    routes: crate::routing::state::RouteState,
)
    ensures
        standing@.version == standing.version,
        standing@.pf_token == standing.pf_token@,
        standing@.main_snapshot == standing.main_snapshot@,
        standing@.nat_snapshot == standing.nat_snapshot@,
        standing@.main_snapshot_captured == standing.main_snapshot_captured,
        transient@.version == transient.version,
        transient@.pf_token == transient.pf_token@,
        transient@.pf_was_enabled == transient.pf_was_enabled,
        routes@.version == routes.version,
        routes@.tun_name == routes.tun_name@,
        routes@.server_ip == routes.server_ip,
        routes@.interface_name == routes.interface_name@,
{
}

} // verus!
