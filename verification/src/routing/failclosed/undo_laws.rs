//! What a cover records when it is engaged is what undoes it.

use vstd::prelude::*;
use crate::ip::IpAddr;
use crate::routing::failclosed::disengage::{disengage_calls, lockdown_disengage_calls};
use crate::routing::failclosed::engage::{engage_calls, engage_record, EngageCallView, EngageReplyView};
use crate::routing::failclosed::failclosed_state;
use crate::routing::failclosed::lockdown::{
    answered, baseline, lockdown_run, LockdownCallView, LockdownReplies, LockdownReplyView,
};
use crate::routing::failclosed::lockdown_pf_state::{self, LockdownPfStateView};
use crate::routing::failclosed::pf_rules::restore_ruleset;
use crate::routing::failclosed::release::{release_calls, PfCallView, Replies};
use crate::routing::recovery::CoverPresence;
use crate::routing::state_file::StateFile;

verus! {

/// An engage records the token that it took, at the version that is read back. A
/// release from that record reloads the host's own ruleset, drops that very token,
/// and clears the record where the reload succeeded.
pub proof fn a_release_undoes_an_engage(
    ruleset: Seq<char>,
    r: Seq<EngageReplyView>,
    token: Seq<char>,
    standing: StateFile<LockdownPfStateView>,
    q: Replies,
)
    requires
        r[1] == EngageReplyView::Token(Ok(token)),
    ensures
        ({
            let record = engage_record(r, token);
            let release = release_calls(StateFile::Present(record), standing, q);
            &&& engage_calls(ruleset, r)[2] == EngageCallView::SaveTransient(record)
            &&& record.version == failclosed_state::SCHEMA_VERSION
            &&& release[0] is ReloadDefault
            &&& release[1] == PfCallView::DropToken(token)
            &&& q[0] is Ok ==> release[2] is ClearTransient
        }),
{
}

/// A start that finds the record of an engage undoes it in the same way.
pub proof fn a_sweep_undoes_an_engage(
    ruleset: Seq<char>,
    r: Seq<EngageReplyView>,
    token: Seq<char>,
    q: Replies,
)
    requires
        r[1] == EngageReplyView::Token(Ok(token)),
        q[0] is Ok,
    ensures
        engage_calls(ruleset, r)[2] == EngageCallView::SaveTransient(engage_record(r, token)),
        disengage_calls(Some(engage_record(r, token).pf_token), false, q) == seq![
            PfCallView::ReloadDefault,
            PfCallView::DropToken(token),
            PfCallView::ClearTransient,
        ],
{
    assert(disengage_calls(Some(token), false, q) =~= seq![
        PfCallView::ReloadDefault,
        PfCallView::DropToken(token),
        PfCallView::ClearTransient,
    ]);
}

/// The rules that a first lockdown found on the host are the rules that come back,
/// whether it is taken down or released: the filter and translation rules that were
/// printed, or the host's own ruleset where the filter rules were the lockdown's.
/// The token that was taken is dropped and the record cleared.
pub proof fn a_lockdown_gives_back_what_it_found(
    tun: Seq<char>,
    server: IpAddr,
    r: LockdownReplies,
    token: Seq<char>,
    presence: CoverPresence,
    filter: Seq<char>,
    translation: Seq<char>,
    later: CoverPresence,
    q: Replies,
)
    requires
        answered(tun, server, r),
        r[0] matches LockdownReplyView::Enabled(Ok(_)),
        r[1] == LockdownReplyView::Standing(None),
        r[2] == LockdownReplyView::Token(Ok(token)),
        r[3] == LockdownReplyView::Presence(presence),
        r[4] == LockdownReplyView::Text(Ok(filter)),
        r[5] == LockdownReplyView::Text(Ok(translation)),
        later is Live || later is Recorded,
        q[0] is Ok,
        q[1] is Ok,
    ensures
        ({
            let record = baseline(token, presence, filter, translation);
            let restore = if presence is Live {
                PfCallView::ReloadDefault
            } else {
                PfCallView::LoadRuleset(restore_ruleset(translation, filter))
            };
            let undone = seq![restore, PfCallView::DropToken(token), PfCallView::ClearStanding];
            &&& lockdown_run(tun, server, r).calls[6] == LockdownCallView::SaveStanding(record)
            &&& record.version == lockdown_pf_state::SCHEMA_VERSION
            &&& lockdown_disengage_calls(later, Some(record), q) == undone
            &&& release_calls(StateFile::Absent, StateFile::Present(record), q) == undone
        }),
{
    let record = baseline(token, presence, filter, translation);
    let restore = if presence is Live {
        PfCallView::ReloadDefault
    } else {
        PfCallView::LoadRuleset(restore_ruleset(translation, filter))
    };
    let undone = seq![restore, PfCallView::DropToken(token), PfCallView::ClearStanding];
    assert(q.skip(0) =~= q);
    assert(lockdown_disengage_calls(later, Some(record), q) =~= undone);
    assert(release_calls(StateFile::Absent, StateFile::Present(record), q) =~= undone);
}

} // verus!
