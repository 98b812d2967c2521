//! Releasing every cover this host may have: the escape from a stranded block.
//!
//! A release hands out the next call on the packet filter or the state files and
//! takes back what became of it. The transient cover is released first; the
//! standing lockdown is attempted whatever became of that.

use vstd::prelude::*;
use crate::error::{outcome_view, RoutingError, RoutingErrorView};
use crate::routing::failclosed::failclosed_state::{FailClosedState, FailClosedStateView};
use crate::routing::failclosed::lockdown_pf_state::{LockdownPfState, LockdownPfStateView};
use crate::routing::failclosed::pf_rules::{build_lockdown_restore_ruleset, restore_ruleset};
use crate::routing::state_file::StateFile;

verus! {

/// One call on the packet filter or on a state file.
#[derive(Debug, Clone, PartialEq, Eq)]
pub enum PfCall {
    /// Load the host's own ruleset file.
    ReloadDefault,
    /// Load this ruleset.
    LoadRuleset(String),
    /// Drop the enable reference with this token.
    DropToken(String),
    /// Remove the transient cover's record.
    ClearTransient,
    /// Remove the standing lockdown's record.
    ClearStanding,
}

/// [`PfCall`] with its text as characters.
pub enum PfCallView {
    ReloadDefault,
    LoadRuleset(Seq<char>),
    DropToken(Seq<char>),
    ClearTransient,
    ClearStanding,
}

impl View for PfCall {
    type V = PfCallView;

    open spec fn view(&self) -> PfCallView {
        match self {
            PfCall::ReloadDefault => PfCallView::ReloadDefault,
            PfCall::LoadRuleset(text) => PfCallView::LoadRuleset(text@),
            PfCall::DropToken(token) => PfCallView::DropToken(token@),
            PfCall::ClearTransient => PfCallView::ClearTransient,
            PfCall::ClearStanding => PfCallView::ClearStanding,
        }
    }
}

/// What became of the calls so far, in order.
pub type Replies = Seq<Result<(), RoutingErrorView>>;

/// A record is cleared only once the restore is confirmed.
pub open spec fn clear_if(confirmed: bool, clear: PfCallView) -> Seq<PfCallView> {
    if confirmed {
        seq![clear]
    } else {
        seq![]
    }
}

/// The calls that release the transient cover, where `r` are their replies. An
/// unusable record is a cover to clear, with no token to drop.
pub open spec fn transient_calls(t: StateFile<FailClosedStateView>, r: Replies) -> Seq<PfCallView> {
    match t {
        StateFile::Absent => seq![],
        StateFile::Present(st) => seq![PfCallView::ReloadDefault, PfCallView::DropToken(st.pf_token)] + clear_if(
            r[0] is Ok,
            PfCallView::ClearTransient,
        ),
        StateFile::Unusable => seq![PfCallView::ReloadDefault] + clear_if(r[0] is Ok, PfCallView::ClearTransient),
    }
}

/// Why the transient cover's restore is not confirmed.
pub open spec fn transient_error(t: StateFile<FailClosedStateView>, r: Replies) -> Option<RoutingErrorView> {
    match t {
        StateFile::Absent => None,
        _ => match r[0] {
            Ok(()) => None,
            Err(e) => Some(e),
        },
    }
}

/// The calls that release the standing lockdown, where `r` are their replies. A
/// captured snapshot is restored, and the host's own ruleset stands in where it
/// will not load; without a captured snapshot the host's own ruleset is the
/// restore.
pub open spec fn standing_calls(s: StateFile<LockdownPfStateView>, r: Replies) -> Seq<PfCallView> {
    match s {
        StateFile::Absent => seq![],
        StateFile::Present(st) => if st.main_snapshot_captured {
            seq![PfCallView::LoadRuleset(restore_ruleset(st.nat_snapshot, st.main_snapshot))] + (if r[0] is Ok {
                seq![]
            } else {
                seq![PfCallView::ReloadDefault]
            }) + seq![PfCallView::DropToken(st.pf_token)] + clear_if(
                r[0] is Ok || r[1] is Ok,
                PfCallView::ClearStanding,
            )
        } else {
            seq![PfCallView::ReloadDefault, PfCallView::DropToken(st.pf_token)] + clear_if(
                r[0] is Ok,
                PfCallView::ClearStanding,
            )
        },
        StateFile::Unusable => seq![PfCallView::ReloadDefault] + clear_if(r[0] is Ok, PfCallView::ClearStanding),
    }
}

/// Both the snapshot and the fallback failed.
pub open spec fn both_failed(snapshot: RoutingErrorView, fallback: RoutingErrorView) -> RoutingErrorView {
    RoutingErrorView::RouteSetup(
        "snapshot restore failed ("@ + snapshot.text() + "); default-ruleset fallback also failed ("@
            + fallback.text() + ")"@,
    )
}

/// Why the standing lockdown's restore is not confirmed.
pub open spec fn standing_error(s: StateFile<LockdownPfStateView>, r: Replies) -> Option<RoutingErrorView> {
    match s {
        StateFile::Absent => None,
        StateFile::Present(st) if st.main_snapshot_captured => match (r[0], r[1]) {
            (Ok(()), _) => None,
            (Err(_), Ok(())) => None,
            (Err(snapshot), Err(fallback)) => Some(both_failed(snapshot, fallback)),
        },
        _ => match r[0] {
            Ok(()) => None,
            Err(e) => Some(e),
        },
    }
}

/// Every call of a release, where `r` are the replies.
pub open spec fn release_calls(
    t: StateFile<FailClosedStateView>,
    s: StateFile<LockdownPfStateView>,
    r: Replies,
) -> Seq<PfCallView> {
    let first = transient_calls(t, r);
    first + standing_calls(s, r.skip(first.len() as int))
}

/// The first restore that was not confirmed, if any.
pub open spec fn release_result(
    t: StateFile<FailClosedStateView>,
    s: StateFile<LockdownPfStateView>,
    r: Replies,
) -> Result<(), RoutingErrorView> {
    match transient_error(t, r) {
        Some(e) => Err(e),
        None => match standing_error(s, r.skip(transient_calls(t, r).len() as int)) {
            Some(e) => Err(e),
            None => Ok(()),
        },
    }
}

/// What the log says where the call after the replies `r` fails. A restore that
/// fails has no line of its own: it shows in the outcome, or in [`release_notice`].
pub open spec fn release_warning(
    t: StateFile<FailClosedStateView>,
    s: StateFile<LockdownPfStateView>,
    r: Replies,
) -> Option<Seq<char>> {
    let standing = r.len() >= transient_calls(t, r).len();
    match release_calls(t, s, r)[r.len() as int] {
        PfCallView::DropToken(_) => if !standing {
            Some("pfctl -X failed releasing the transient cover's pf refcount during release_all"@)
        } else if s matches StateFile::Present(st) && st.main_snapshot_captured {
            Some(
                "pfctl -X failed releasing the standing cover's pf refcount during release_all after a snapshot restore"@,
            )
        } else {
            Some(
                "pfctl -X failed releasing the standing cover's pf refcount during release_all after a default-ruleset restore"@,
            )
        },
        PfCallView::ClearTransient => Some("failclosed-state clear failed during release_all"@),
        PfCallView::ClearStanding => Some("lockdown-pf-state clear failed during release_all"@),
        _ => None,
    }
}

/// What the log says before the call after the replies `r`: that a record cannot be
/// used, or that the host's own ruleset stands in for a snapshot.
pub open spec fn release_notice(
    t: StateFile<FailClosedStateView>,
    s: StateFile<LockdownPfStateView>,
    r: Replies,
) -> Option<Seq<char>> {
    let n = transient_calls(t, r).len() as int;
    if t is Unusable && r.len() == 0 {
        Some(
            "transient failclosed-state file is unusable; no pf token to drop — a pf enable refcount may be leaked (pf then stays enabled over the canonical /etc/pf.conf, which blocks nothing, and a reboot resets it)"@,
        )
    } else if s is Unusable && r.len() == n {
        Some(
            "standing lockdown-pf-state file is unusable; no snapshot to restore, falling back to the default ruleset"@,
        )
    } else if (s matches StateFile::Present(st) && st.main_snapshot_captured) && r.len() == n + 2 && r[n] is Err && r[n
        + 1] is Ok {
        Some(
            "captured pf snapshot could not load; fell back to the default ruleset — the host's captured pf rules could not be restored"@,
        )
    } else {
        None
    }
}

/// How a standing lockdown's restore was made.
#[derive(Clone, Copy)]
enum RestoredFrom {
    Snapshot,
    Fallback,
    Default,
}

enum ReleaseAt {
    TransientReload(Option<String>),
    TransientDrop(String, Result<(), RoutingError>),
    TransientClear,
    StandingReload(Option<String>),
    StandingLoad(String, String),
    StandingFallback(String, RoutingError),
    StandingDrop(String, Result<(), RoutingError>, RestoredFrom),
    StandingClear,
    Over,
}

/// A release under way.
pub struct ReleaseAll {
    pending: StateFile<LockdownPfState>,
    first_err: Option<RoutingError>,
    at: ReleaseAt,
    transient: Ghost<StateFile<FailClosedStateView>>,
    standing: Ghost<StateFile<LockdownPfStateView>>,
    replies: Ghost<Replies>,
}

pub open spec fn warning_view(w: Option<&'static str>) -> Option<Seq<char>> {
    match w {
        Some(text) => Some(text@),
        None => None,
    }
}

pub open spec fn error_view(e: Option<RoutingError>) -> Option<RoutingErrorView> {
    match e {
        Some(e) => Some(e@),
        None => None,
    }
}

impl ReleaseAll {
    /// The transient cover's record that the release started from.
    pub closed spec fn transient(self) -> StateFile<FailClosedStateView> {
        self.transient@
    }

    /// The standing lockdown's record that the release started from.
    pub closed spec fn standing(self) -> StateFile<LockdownPfStateView> {
        self.standing@
    }

    pub closed spec fn replies(self) -> Replies {
        self.replies@
    }

    pub open spec fn calls(self) -> Seq<PfCallView> {
        release_calls(self.transient(), self.standing(), self.replies())
    }

    /// Every call has been made.
    pub open spec fn over(self) -> bool {
        self.replies().len() == self.calls().len()
    }

    spec fn base(self) -> int {
        transient_calls(self.transient@, self.replies@).len() as int
    }

    /// The replies to the standing lockdown's calls.
    spec fn later(self) -> Replies {
        self.replies@.skip(self.base())
    }

    spec fn in_standing(self) -> bool {
        &&& self.replies@.len() >= self.base()
        &&& error_view(self.first_err) == transient_error(self.transient@, self.replies@)
    }

    pub closed spec fn wf(self) -> bool {
        let t = self.transient@;
        let s = self.standing@;
        let r = self.replies@;
        let q = self.later();
        match self.at {
            ReleaseAt::TransientReload(token) => {
                &&& r.len() == 0
                &&& self.first_err is None
                &&& self.pending@ == s
                &&& match token {
                    Some(token) => t matches StateFile::Present(st) && st.pf_token == token@,
                    None => t is Unusable,
                }
            },
            ReleaseAt::TransientDrop(token, reload) => {
                &&& r.len() == 1
                &&& self.first_err is None
                &&& self.pending@ == s
                &&& t matches StateFile::Present(st)
                &&& st.pf_token == token@
                &&& outcome_view(reload) == r[0]
            },
            ReleaseAt::TransientClear => {
                &&& self.first_err is None
                &&& self.pending@ == s
                &&& r.len() > 0 && r[0] is Ok
                &&& (t is Present && r.len() == 2) || (t is Unusable && r.len() == 1)
            },
            ReleaseAt::StandingReload(token) => {
                &&& self.in_standing()
                &&& q.len() == 0
                &&& match token {
                    Some(token) => s matches StateFile::Present(st) && st.pf_token == token@
                        && !st.main_snapshot_captured,
                    None => s is Unusable,
                }
            },
            ReleaseAt::StandingLoad(token, text) => {
                &&& self.in_standing()
                &&& q.len() == 0
                &&& s matches StateFile::Present(st)
                &&& st.main_snapshot_captured
                &&& st.pf_token == token@
                &&& text@ == restore_ruleset(st.nat_snapshot, st.main_snapshot)
            },
            ReleaseAt::StandingFallback(token, snapshot) => {
                &&& self.in_standing()
                &&& q.len() == 1
                &&& q[0] == Err::<(), RoutingErrorView>(snapshot@)
                &&& s matches StateFile::Present(st)
                &&& st.main_snapshot_captured
                &&& st.pf_token == token@
            },
            ReleaseAt::StandingDrop(token, outcome, from) => {
                &&& self.in_standing()
                &&& s matches StateFile::Present(st)
                &&& st.main_snapshot_captured == !(from is Default)
                &&& st.pf_token == token@
                &&& match from {
                    RestoredFrom::Snapshot => q.len() == 1 && q[0] is Ok && outcome is Ok,
                    RestoredFrom::Fallback => q.len() == 2 && q[0] is Err && match q[1] {
                        Ok(()) => outcome is Ok,
                        Err(e) => outcome matches Err(x) && x@ == both_failed(q[0]->Err_0, e),
                    },
                    RestoredFrom::Default => q.len() == 1 && outcome_view(outcome) == q[0],
                }
            },
            ReleaseAt::StandingClear => {
                &&& self.in_standing()
                &&& standing_error(s, q) is None
                &&& q.len() == standing_calls(s, q).len() - 1
                &&& q.len() > 0
                &&& standing_calls(s, q).last() is ClearStanding
            },
            ReleaseAt::Over => {
                &&& r.len() == release_calls(t, s, r).len()
                &&& match release_result(t, s, r) {
                    Ok(()) => self.first_err is None,
                    Err(e) => self.first_err matches Some(x) && x@ == e,
                }
            },
        }
    }

    /// The call to make now, `None` when the release is over.
    pub fn next(&self) -> (r: Option<PfCall>)
        requires
            self.wf(),
        ensures
            match r {
                Some(call) => self.replies().len() < self.calls().len() && call@
                    == self.calls()[self.replies().len() as int],
                None => self.over(),
            },
    {
        match &self.at {
            ReleaseAt::TransientReload(_) => Some(PfCall::ReloadDefault),
            ReleaseAt::TransientDrop(token, _) => Some(PfCall::DropToken(token.clone())),
            ReleaseAt::TransientClear => Some(PfCall::ClearTransient),
            ReleaseAt::StandingReload(_) => Some(PfCall::ReloadDefault),
            ReleaseAt::StandingLoad(_, text) => Some(PfCall::LoadRuleset(text.clone())),
            ReleaseAt::StandingFallback(_, _) => Some(PfCall::ReloadDefault),
            ReleaseAt::StandingDrop(token, _, _) => Some(PfCall::DropToken(token.clone())),
            ReleaseAt::StandingClear => Some(PfCall::ClearStanding),
            ReleaseAt::Over => None,
        }
    }

    /// What to log where the call that [`ReleaseAll::next`] handed out fails and its
    /// failure does not show in the outcome.
    pub fn warning(&self) -> (w: Option<&'static str>)
        requires
            self.wf(),
            !self.over(),
        ensures
            warning_view(w) == release_warning(self.transient(), self.standing(), self.replies()),
    {
        match &self.at {
            ReleaseAt::TransientDrop(_, _) => Some(
                "pfctl -X failed releasing the transient cover's pf refcount during release_all",
            ),
            ReleaseAt::TransientClear => Some("failclosed-state clear failed during release_all"),
            ReleaseAt::StandingDrop(_, _, from) => match from {
                RestoredFrom::Snapshot | RestoredFrom::Fallback => Some(
                    "pfctl -X failed releasing the standing cover's pf refcount during release_all after a snapshot restore",
                ),
                RestoredFrom::Default => Some(
                    "pfctl -X failed releasing the standing cover's pf refcount during release_all after a default-ruleset restore",
                ),
            },
            ReleaseAt::StandingClear => Some("lockdown-pf-state clear failed during release_all"),
            _ => None,
        }
    }

    /// What to log before the call that [`ReleaseAll::next`] hands out is made.
    pub fn notice(&self) -> (w: Option<&'static str>)
        requires
            self.wf(),
            !self.over(),
        ensures
            warning_view(w) == release_notice(self.transient(), self.standing(), self.replies()),
    {
        match &self.at {
            ReleaseAt::TransientReload(None) => Some(
                "transient failclosed-state file is unusable; no pf token to drop — a pf enable refcount may be leaked (pf then stays enabled over the canonical /etc/pf.conf, which blocks nothing, and a reboot resets it)",
            ),
            ReleaseAt::StandingReload(None) => Some(
                "standing lockdown-pf-state file is unusable; no snapshot to restore, falling back to the default ruleset",
            ),
            ReleaseAt::StandingDrop(_, Ok(()), RestoredFrom::Fallback) => Some(
                "captured pf snapshot could not load; fell back to the default ruleset — the host's captured pf rules could not be restored",
            ),
            _ => None,
        }
    }

    /// Go on to the standing lockdown once the transient cover is done with.
    fn enter_standing(
        pending: StateFile<LockdownPfState>,
        first_err: Option<RoutingError>,
        Ghost(t): Ghost<StateFile<FailClosedStateView>>,
        Ghost(s): Ghost<StateFile<LockdownPfStateView>>,
        Ghost(r): Ghost<Replies>,
    ) -> (m: Self)
        requires
            pending@ == s,
            r.len() == transient_calls(t, r).len(),
            error_view(first_err) == transient_error(t, r),
        ensures
            m.wf(),
            m.transient() == t,
            m.standing() == s,
            m.replies() == r,
    {
        let mut at = ReleaseAt::Over;
        match pending {
            StateFile::Absent => {}
            StateFile::Unusable => {
                at = ReleaseAt::StandingReload(None);
            }
            StateFile::Present(st) => {
                if st.main_snapshot_captured {
                    let text = build_lockdown_restore_ruleset(st.nat_snapshot.as_str(), st.main_snapshot.as_str());
                    at = ReleaseAt::StandingLoad(st.pf_token, text);
                } else {
                    at = ReleaseAt::StandingReload(Some(st.pf_token));
                }
            }
        }
        ReleaseAll {
            pending: StateFile::Absent,
            first_err,
            at,
            transient: Ghost(t),
            standing: Ghost(s),
            replies: Ghost(r),
        }
    }

    /// A call of the standing lockdown is due.
    spec fn standing_due(self) -> bool {
        ||| self.at is StandingReload
        ||| self.at is StandingLoad
        ||| self.at is StandingFallback
        ||| self.at is StandingDrop
        ||| self.at is StandingClear
    }

    /// A further reply changes nothing about the transient cover's calls once they
    /// are made, and is the next of the standing lockdown's replies.
    proof fn lemma_standing_reply(self, reply: Result<(), RoutingErrorView>)
        requires
            self.wf(),
            self.standing_due(),
        ensures
            ({
                let r = self.replies@.push(reply);
                &&& transient_calls(self.transient@, r) == transient_calls(self.transient@, self.replies@)
                &&& transient_error(self.transient@, r) == transient_error(self.transient@, self.replies@)
                &&& r.skip(self.base()) == self.later().push(reply)
            }),
    {
        let before = self.replies@;
        let r = before.push(reply);
        assert(forall|i: int| 0 <= i < before.len() ==> r[i] == before[i]);
        assert(transient_calls(self.transient@, r) =~= transient_calls(self.transient@, before));
        assert(r.skip(self.base()) =~= self.later().push(reply));
    }

    /// [`ReleaseAll::feed`] for a call of the standing lockdown.
    fn feed_standing(self, reply: Result<(), RoutingError>) -> (m: Self)
        requires
            self.wf(),
            self.standing_due(),
        ensures
            m.wf(),
            m.transient() == self.transient(),
            m.standing() == self.standing(),
            m.replies() == self.replies().push(outcome_view(reply)),
    {
        let ghost r = self.replies@.push(outcome_view(reply));
        proof {
            self.lemma_standing_reply(outcome_view(reply));
        }
        let mut first_err = self.first_err;
        let mut at = ReleaseAt::Over;
        match self.at {
            ReleaseAt::StandingReload(Some(token)) => {
                at = ReleaseAt::StandingDrop(token, reply, RestoredFrom::Default);
            }
            ReleaseAt::StandingReload(None) => {
                match reply {
                    Ok(()) => {
                        at = ReleaseAt::StandingClear;
                    }
                    Err(e) => {
                        if first_err.is_none() {
                            first_err = Some(e);
                        }
                    }
                }
            }
            ReleaseAt::StandingLoad(token, _) => {
                match reply {
                    Ok(()) => {
                        at = ReleaseAt::StandingDrop(token, Ok(()), RestoredFrom::Snapshot);
                    }
                    Err(e) => {
                        at = ReleaseAt::StandingFallback(token, e);
                    }
                }
            }
            ReleaseAt::StandingFallback(token, snapshot) => {
                let outcome = match reply {
                    Ok(()) => Ok(()),
                    Err(fallback) => Err(combined_error(&snapshot, &fallback)),
                };
                at = ReleaseAt::StandingDrop(token, outcome, RestoredFrom::Fallback);
            }
            ReleaseAt::StandingDrop(_, outcome, _) => {
                match outcome {
                    Ok(()) => {
                        at = ReleaseAt::StandingClear;
                    }
                    Err(e) => {
                        if first_err.is_none() {
                            first_err = Some(e);
                        }
                    }
                }
            }
            _ => {}
        }
        ReleaseAll {
            pending: self.pending,
            first_err,
            at,
            transient: self.transient,
            standing: self.standing,
            replies: Ghost(r),
        }
    }

    /// Take what became of the call that [`ReleaseAll::next`] handed out.
    pub fn feed(self, reply: Result<(), RoutingError>) -> (m: Self)
        requires
            self.wf(),
            !self.over(),
        ensures
            m.wf(),
            m.transient() == self.transient(),
            m.standing() == self.standing(),
            m.replies() == self.replies().push(outcome_view(reply)),
    {
        let ghost t = self.transient@;
        let ghost s = self.standing@;
        let ghost r = self.replies@.push(outcome_view(reply));
        proof {
            assert(forall|i: int| 0 <= i < self.replies@.len() ==> r[i] == self.replies@[i]);
        }
        let at = match self.at {
            ReleaseAt::TransientReload(Some(token)) => ReleaseAt::TransientDrop(token, reply),
            ReleaseAt::TransientReload(None) => match reply {
                Ok(()) => ReleaseAt::TransientClear,
                Err(e) => {
                    return Self::enter_standing(self.pending, Some(e), Ghost(t), Ghost(s), Ghost(r));
                }
            },
            ReleaseAt::TransientDrop(_, reload) => match reload {
                Ok(()) => ReleaseAt::TransientClear,
                Err(e) => {
                    return Self::enter_standing(self.pending, Some(e), Ghost(t), Ghost(s), Ghost(r));
                }
            },
            ReleaseAt::TransientClear => {
                return Self::enter_standing(self.pending, None, Ghost(t), Ghost(s), Ghost(r));
            }
            _ => {
                return self.feed_standing(reply);
            }
        };
        ReleaseAll {
            pending: self.pending,
            first_err: self.first_err,
            at,
            transient: Ghost(t),
            standing: Ghost(s),
            replies: Ghost(r),
        }
    }

    /// The outcome of a release that is over: the first restore that was not
    /// confirmed, or success.
    pub fn finish(self) -> (r: Result<(), RoutingError>)
        requires
            self.wf(),
            self.over(),
        ensures
            outcome_view(r) == release_result(self.transient(), self.standing(), self.replies()),
    {
        match self.first_err {
            Some(e) => Err(e),
            None => Ok(()),
        }
    }
}

fn combined_error(snapshot: &RoutingError, fallback: &RoutingError) -> (r: RoutingError)
    ensures
        r@ == both_failed(snapshot@, fallback@),
{
    let mut text = "snapshot restore failed (".to_owned();
    text.append(snapshot.message().as_str());
    text.append("); default-ruleset fallback also failed (");
    text.append(fallback.message().as_str());
    text.append(")");
    RoutingError::RouteSetup(text)
}

/// Start releasing every cover the two records speak of. A host without records is
/// not touched.
pub fn release_all_with(
    transient: StateFile<FailClosedState>,
    standing: StateFile<LockdownPfState>,
) -> (m: ReleaseAll)
    ensures
        m.wf(),
        m.transient() == transient@,
        m.standing() == standing@,
        m.replies().len() == 0,
{
    let ghost t = transient@;
    let ghost s = standing@;
    let at = match transient {
        StateFile::Absent => {
            return ReleaseAll::enter_standing(standing, None, Ghost(t), Ghost(s), Ghost(Seq::empty()));
        }
        StateFile::Present(st) => ReleaseAt::TransientReload(Some(st.pf_token)),
        StateFile::Unusable => ReleaseAt::TransientReload(None),
    };
    ReleaseAll {
        pending: standing,
        first_err: None,
        at,
        transient: Ghost(t),
        standing: Ghost(s),
        replies: Ghost(Seq::empty()),
    }
}

/// Where a call stands among those of one cover, it is one that this cover makes.
proof fn lemma_transient_call(t: StateFile<FailClosedStateView>, r: Replies, i: int)
    requires
        0 <= i < transient_calls(t, r).len(),
    ensures
        !(transient_calls(t, r)[i] is ClearStanding),
        !(transient_calls(t, r)[i] is LoadRuleset),
        transient_calls(t, r)[i] is ClearTransient ==> r[0] is Ok && i == transient_calls(t, r).len() - 1,
{
}

proof fn lemma_standing_call(s: StateFile<LockdownPfStateView>, r: Replies, i: int)
    requires
        0 <= i < standing_calls(s, r).len(),
    ensures
        !(standing_calls(s, r)[i] is ClearTransient),
        standing_calls(s, r)[i] is ClearStanding <==> standing_error(s, r) is None && i == standing_calls(s, r).len() - 1,
{
}

/// A host without records is not touched, and that is a success.
pub proof fn release_leaves_a_clean_host_alone(r: Replies)
    ensures
        release_calls(StateFile::Absent, StateFile::Absent, r).len() == 0,
        release_result(StateFile::Absent, StateFile::Absent, r) is Ok,
{
}

/// The standing lockdown is attempted whatever became of the transient cover: its
/// restore is the call right after the transient cover's.
pub proof fn release_always_attempts_the_standing_cover(
    t: StateFile<FailClosedStateView>,
    s: StateFile<LockdownPfStateView>,
    r: Replies,
)
    requires
        !(s is Absent),
    ensures
        ({
            let at = transient_calls(t, r).len() as int;
            let calls = release_calls(t, s, r);
            at < calls.len() && (calls[at] is LoadRuleset || calls[at] is ReloadDefault)
        }),
{
}

/// The transient cover's record is cleared only after its restore was confirmed.
pub proof fn transient_record_is_cleared_only_when_restored(
    t: StateFile<FailClosedStateView>,
    s: StateFile<LockdownPfStateView>,
    r: Replies,
    i: int,
)
    requires
        0 <= i < release_calls(t, s, r).len(),
        release_calls(t, s, r)[i] is ClearTransient,
    ensures
        0 < i,
        release_calls(t, s, r)[0] is ReloadDefault,
        r[0] is Ok,
{
    let n = transient_calls(t, r).len() as int;
    if i < n {
        lemma_transient_call(t, r, i);
    } else {
        lemma_standing_call(s, r.skip(n), i - n);
    }
}

/// The standing lockdown's record is cleared only after one of its restores was
/// confirmed.
pub proof fn standing_record_is_cleared_only_when_restored(
    t: StateFile<FailClosedStateView>,
    s: StateFile<LockdownPfStateView>,
    r: Replies,
    i: int,
)
    requires
        r.len() == release_calls(t, s, r).len(),
        0 <= i < r.len(),
        release_calls(t, s, r)[i] is ClearStanding,
    ensures
        exists|j: int|
            transient_calls(t, r).len() <= j < i && (#[trigger] release_calls(t, s, r)[j] is LoadRuleset
                || release_calls(t, s, r)[j] is ReloadDefault) && r[j] is Ok,
{
    let n = transient_calls(t, r).len() as int;
    let q = r.skip(n);
    if i < n {
        lemma_transient_call(t, r, i);
    } else {
        lemma_standing_call(s, q, i - n);
        let calls = release_calls(t, s, r);
        if q[0] is Ok {
            assert(calls[n] is LoadRuleset || calls[n] is ReloadDefault);
            assert(r[n] is Ok);
        } else {
            assert(calls[n + 1] is ReloadDefault);
            assert(r[n + 1] is Ok);
        }
    }
}

/// A release succeeds exactly when it went on to clear the record of each cover it
/// found.
pub proof fn release_succeeds_iff_every_record_is_cleared(
    t: StateFile<FailClosedStateView>,
    s: StateFile<LockdownPfStateView>,
    r: Replies,
)
    requires
        r.len() == release_calls(t, s, r).len(),
    ensures
        release_result(t, s, r) is Ok <==> {
            &&& t is Absent || release_calls(t, s, r).contains(PfCallView::ClearTransient)
            &&& s is Absent || release_calls(t, s, r).contains(PfCallView::ClearStanding)
        },
{
    let first = transient_calls(t, r);
    let n = first.len() as int;
    let q = r.skip(n);
    let second = standing_calls(s, q);
    let calls = release_calls(t, s, r);
    assert(calls == first + second);
    if !(t is Absent) && transient_error(t, r) is None {
        assert(calls[n - 1] == PfCallView::ClearTransient);
    }
    if !(s is Absent) && standing_error(s, q) is None {
        assert(second.last() == PfCallView::ClearStanding);
        assert(calls[n + second.len() - 1] == PfCallView::ClearStanding);
    }
    if calls.contains(PfCallView::ClearTransient) {
        let i = choose|i: int| 0 <= i < calls.len() && calls[i] == PfCallView::ClearTransient;
        transient_record_is_cleared_only_when_restored(t, s, r, i);
    }
    if calls.contains(PfCallView::ClearStanding) {
        let i = choose|i: int| 0 <= i < calls.len() && calls[i] == PfCallView::ClearStanding;
        if i < n {
            lemma_transient_call(t, r, i);
        } else {
            lemma_standing_call(s, q, i - n);
        }
    }
}

/// Without a captured snapshot no snapshot is loaded: an empty ruleset would let
/// everything pass.
pub proof fn an_uncaptured_snapshot_is_never_loaded(
    t: StateFile<FailClosedStateView>,
    s: StateFile<LockdownPfStateView>,
    r: Replies,
    i: int,
)
    requires
        s matches StateFile::Present(st) ==> !st.main_snapshot_captured,
        0 <= i < release_calls(t, s, r).len(),
    ensures
        !(release_calls(t, s, r)[i] is LoadRuleset),
{
    let n = transient_calls(t, r).len() as int;
    if i < n {
        lemma_transient_call(t, r, i);
    }
}

} // verus!
