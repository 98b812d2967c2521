//! Taking a cover down, and finding out whether there is one.

use vstd::prelude::*;
use crate::error::{outcome_view, CommandOutput, RoutingError, RoutingErrorView};
use crate::routing::failclosed::failclosed_state::FailClosedState;
use crate::routing::failclosed::lockdown_pf_state::{
    load_presence, presence, LockdownPfRecord, LockdownPfState, LockdownPfStateView,
};
use crate::routing::failclosed::pf_output::{carries_label, confirmed, pf_label_answer, printed};
use crate::routing::failclosed::pf_rules::{build_lockdown_restore_ruleset, restore_ruleset};
use crate::routing::failclosed::release::{clear_if, warning_view, PfCall, PfCallView, Replies};
use crate::routing::recovery::CoverPresence;
use crate::routing::state_file::{StateFile, Stored};

verus! {

/// A transient cover to take down.
#[derive(Debug, Clone, PartialEq, Eq)]
pub struct Restore {
    /// The token of its enable reference, where one is on record.
    pub token: Option<String>,
    /// A standing cover is being kept: the loaded ruleset must stay.
    pub adopting: bool,
}

/// What a start does about a transient cover's record. An unusable record is a
/// cover to take down, with no token to drop; only an absent one is nothing.
pub fn recover_cover_with(file: StateFile<FailClosedState>, adopting: bool) -> (r: Option<Restore>)
    ensures
        r == match file {
            StateFile::Absent => None::<Restore>,
            StateFile::Present(st) => Some(Restore { token: Some(st.pf_token), adopting }),
            StateFile::Unusable => Some(Restore { token: None, adopting }),
        },
{
    match file {
        StateFile::Absent => None,
        StateFile::Present(st) => Some(Restore { token: Some(st.pf_token), adopting }),
        StateFile::Unusable => Some(Restore { token: None, adopting }),
    }
}

/// [`recover_cover_with`] on what the disk held.
pub fn recover_cover(stored: Stored<FailClosedState>, adopting: bool) -> (r: Option<Restore>)
    ensures
        r == match crate::routing::failclosed::failclosed_state::presence(stored) {
            StateFile::Absent => None::<Restore>,
            StateFile::Present(st) => Some(Restore { token: Some(st.pf_token), adopting }),
            StateFile::Unusable => Some(Restore { token: None, adopting }),
        },
{
    recover_cover_with(crate::routing::failclosed::failclosed_state::load_presence(stored), adopting)
}

pub open spec fn token_calls(token: Option<Seq<char>>) -> Seq<PfCallView> {
    match token {
        Some(token) => seq![PfCallView::DropToken(token)],
        None => seq![],
    }
}

/// The calls that take a transient cover down, where `r` are their replies. The
/// host's ruleset is reloaded unless a standing cover is being kept, the reference
/// is dropped, and the record is cleared only over a confirmed reload.
pub open spec fn disengage_calls(token: Option<Seq<char>>, adopting: bool, r: Replies) -> Seq<PfCallView> {
    if adopting {
        token_calls(token) + seq![PfCallView::ClearTransient]
    } else {
        seq![PfCallView::ReloadDefault] + token_calls(token) + clear_if(r[0] is Ok, PfCallView::ClearTransient)
    }
}

/// What the log says where a call fails, and where its command was `started`. A
/// reload that ran and exited with a failure has no line of its own: it shows in
/// [`left_behind`].
pub open spec fn disengage_warning(call: PfCallView, started: bool) -> Option<Seq<char>> {
    match call {
        PfCallView::ReloadDefault => if started {
            None
        } else {
            Some("pf ruleset restore failed during cover disengage"@)
        },
        PfCallView::DropToken(_) => Some("pfctl -X failed during cover disengage"@),
        PfCallView::ClearTransient => Some("failclosed-state clear failed during cover disengage"@),
        _ => None,
    }
}

/// What the log says at the end of a disengage that leaves the record in place.
pub open spec fn left_behind(adopting: bool, r: Replies) -> Option<Seq<char>> {
    if adopting || r[0] is Ok {
        None
    } else {
        Some(
            "leaving failclosed-state file in place: the /etc/pf.conf restore did not confirm — clearing it now would make the next sweep read a clean host while the block persists"@,
        )
    }
}

enum DisengageAt {
    Reload,
    Drop,
    Clear,
    Over,
}

/// A transient cover being taken down.
pub struct Disengage {
    restore: Restore,
    confirmed: bool,
    at: DisengageAt,
    replies: Ghost<Replies>,
}

pub open spec fn name_view(s: Option<String>) -> Option<Seq<char>> {
    match s {
        Some(s) => Some(s@),
        None => None,
    }
}

impl Disengage {
    pub closed spec fn restore(self) -> Restore {
        self.restore
    }

    pub closed spec fn replies(self) -> Replies {
        self.replies@
    }

    pub open spec fn calls(self) -> Seq<PfCallView> {
        disengage_calls(name_view(self.restore().token), self.restore().adopting, self.replies())
    }

    /// Every call has been made.
    pub open spec fn over(self) -> bool {
        self.replies().len() == self.calls().len()
    }

    pub closed spec fn wf(self) -> bool {
        let r = self.replies@;
        let adopting = self.restore.adopting;
        let before: int = if adopting {
            0
        } else {
            1
        };
        let dropped: int = if self.restore.token is Some {
            1
        } else {
            0
        };
        &&& r.len() > 0 || adopting ==> self.confirmed == (adopting || r[0] is Ok)
        &&& match self.at {
            DisengageAt::Reload => !adopting && r.len() == 0,
            DisengageAt::Drop => r.len() == before && self.restore.token is Some,
            DisengageAt::Clear => r.len() == before + dropped && self.confirmed,
            DisengageAt::Over => r.len() == self.calls().len(),
        }
    }

    /// The call to make now, `None` when the cover has been dealt with.
    pub fn next(&self) -> (r: Option<PfCall>)
        requires
            self.wf(),
        ensures
            match r {
                Some(call) => self.replies().len() < self.calls().len() && call@
                    == self.calls()[self.replies().len() as int],
                None => self.over(),
            },
    {
        match &self.at {
            DisengageAt::Reload => Some(PfCall::ReloadDefault),
            DisengageAt::Drop => match &self.restore.token {
                Some(token) => Some(PfCall::DropToken(token.clone())),
                None => None,
            },
            DisengageAt::Clear => Some(PfCall::ClearTransient),
            DisengageAt::Over => None,
        }
    }

    /// What to log where the call that [`Disengage::next`] handed out fails. `started`
    /// tells whether its command could be started; a call without one is taken as
    /// started.
    pub fn warning(&self, started: bool) -> (w: Option<&'static str>)
        requires
            self.wf(),
            !self.over(),
        ensures
            warning_view(w) == disengage_warning(self.calls()[self.replies().len() as int], started),
    {
        match &self.at {
            DisengageAt::Reload => if started {
                None
            } else {
                Some("pf ruleset restore failed during cover disengage")
            },
            DisengageAt::Drop => Some("pfctl -X failed during cover disengage"),
            DisengageAt::Clear => Some("failclosed-state clear failed during cover disengage"),
            DisengageAt::Over => None,
        }
    }

    /// Take what became of the call that [`Disengage::next`] handed out.
    pub fn feed(self, reply: Result<(), RoutingError>) -> (m: Self)
        requires
            self.wf(),
            !self.over(),
        ensures
            m.wf(),
            m.restore() == self.restore(),
            m.replies() == self.replies().push(outcome_view(reply)),
    {
        let ghost r = self.replies@.push(outcome_view(reply));
        let mut confirmed = self.confirmed;
        let mut at = DisengageAt::Over;
        match self.at {
            DisengageAt::Reload => {
                confirmed = reply.is_ok();
                if self.restore.token.is_some() {
                    at = DisengageAt::Drop;
                } else if confirmed {
                    at = DisengageAt::Clear;
                }
            }
            DisengageAt::Drop => {
                if confirmed {
                    at = DisengageAt::Clear;
                }
            }
            DisengageAt::Clear => {}
            DisengageAt::Over => {}
        }
        Disengage { restore: self.restore, confirmed, at, replies: Ghost(r) }
    }

    /// What to log once the cover has been dealt with, where its record stays.
    pub fn left_behind(&self) -> (w: Option<&'static str>)
        requires
            self.wf(),
            self.over(),
        ensures
            warning_view(w) == left_behind(self.restore().adopting, self.replies()),
    {
        if self.confirmed {
            None
        } else {
            Some(
                "leaving failclosed-state file in place: the /etc/pf.conf restore did not confirm — clearing it now would make the next sweep read a clean host while the block persists",
            )
        }
    }
}

/// Start taking a transient cover down.
pub fn disengage(restore: Restore) -> (m: Disengage)
    ensures
        m.wf(),
        m.restore() == restore,
        m.replies().len() == 0,
{
    let at = if !restore.adopting {
        DisengageAt::Reload
    } else if restore.token.is_some() {
        DisengageAt::Drop
    } else {
        DisengageAt::Clear
    };
    let confirmed = restore.adopting;
    Disengage { restore, confirmed, at, replies: Ghost(Seq::empty()) }
}

/// A reload is confirmed exactly when its run counts as a success.
pub proof fn confirmed_iff_the_reload_succeeded(out: Result<CommandOutput, RoutingError>, what: Seq<char>)
    ensures
        confirmed(false, out) <==> printed(out, what) is Ok,
{
}

/// While a standing cover is being kept, taking the transient one down loads no
/// ruleset.
pub proof fn an_adopting_sweep_keeps_the_ruleset(token: Option<Seq<char>>, r: Replies, i: int)
    requires
        0 <= i < disengage_calls(token, true, r).len(),
    ensures
        !(disengage_calls(token, true, r)[i] is ReloadDefault),
        !(disengage_calls(token, true, r)[i] is LoadRuleset),
{
}

/// The transient record is cleared only over a confirmed reload, or while a
/// standing cover is being kept.
pub proof fn a_record_outlives_an_unconfirmed_reload(token: Option<Seq<char>>, adopting: bool, r: Replies, i: int)
    requires
        0 <= i < disengage_calls(token, adopting, r).len(),
        disengage_calls(token, adopting, r)[i] is ClearTransient,
    ensures
        adopting || r[0] is Ok,
{
}

/// The call that restores what a lockdown replaced. Without a captured snapshot
/// that is the host's own ruleset.
pub open spec fn lockdown_restore_call(st: Option<LockdownPfStateView>) -> PfCallView {
    match st {
        Some(st) if st.main_snapshot_captured => PfCallView::LoadRuleset(
            restore_ruleset(st.nat_snapshot, st.main_snapshot),
        ),
        _ => PfCallView::ReloadDefault,
    }
}

/// The calls that take a standing lockdown down, where `r` are their replies. None
/// is made unless a cover is known to be there; a failed one ends it.
pub open spec fn lockdown_disengage_calls(
    presence: CoverPresence,
    st: Option<LockdownPfStateView>,
    r: Replies,
) -> Seq<PfCallView> {
    if !(presence is Live || presence is Recorded) {
        seq![]
    } else if r[0] is Err {
        seq![lockdown_restore_call(st)]
    } else {
        match st {
            Some(st) => seq![lockdown_restore_call(Some(st)), PfCallView::DropToken(st.pf_token)] + clear_if(
                r[1] is Ok,
                PfCallView::ClearStanding,
            ),
            None => seq![lockdown_restore_call(None), PfCallView::ClearStanding],
        }
    }
}

/// Nothing was done, and what the user can do instead.
pub open spec fn presence_unknown() -> Seq<char> {
    "could not determine whether a lockdown cover is present; nothing was done — run `sudo pfctl -f /etc/pf.conf` to restore the system firewall manually"@
}

/// The outcome of taking a standing lockdown down. A record that could not be
/// cleared does not fail it.
pub open spec fn lockdown_disengage_result(
    presence: CoverPresence,
    st: Option<LockdownPfStateView>,
    r: Replies,
) -> Result<(), RoutingErrorView> {
    match presence {
        CoverPresence::Absent => Ok(()),
        CoverPresence::Unreachable | CoverPresence::Indeterminate => Err(
            RoutingErrorView::RouteSetup(presence_unknown()),
        ),
        CoverPresence::Live | CoverPresence::Recorded => if r[0] is Err {
            r[0]
        } else if st is Some && r[1] is Err {
            r[1]
        } else {
            Ok(())
        },
    }
}

enum LockdownAt {
    Restore(PfCall),
    Drop,
    Clear,
    Over(Result<(), RoutingError>),
}

/// A standing lockdown being taken down.
pub struct DisengageLockdown {
    token: Option<String>,
    at: LockdownAt,
    presence: Ghost<CoverPresence>,
    record: Ghost<Option<LockdownPfStateView>>,
    replies: Ghost<Replies>,
}

impl DisengageLockdown {
    pub closed spec fn presence(self) -> CoverPresence {
        self.presence@
    }

    pub closed spec fn record(self) -> Option<LockdownPfStateView> {
        self.record@
    }

    pub closed spec fn replies(self) -> Replies {
        self.replies@
    }

    pub open spec fn calls(self) -> Seq<PfCallView> {
        lockdown_disengage_calls(self.presence(), self.record(), self.replies())
    }

    /// Every call has been made.
    pub open spec fn over(self) -> bool {
        self.replies().len() == self.calls().len()
    }

    pub closed spec fn wf(self) -> bool {
        let r = self.replies@;
        let present = self.presence@ is Live || self.presence@ is Recorded;
        &&& name_view(self.token) == match self.record@ {
            Some(st) => Some(st.pf_token),
            None => None,
        }
        &&& match self.at {
            LockdownAt::Restore(call) => present && r.len() == 0 && call@ == lockdown_restore_call(self.record@),
            LockdownAt::Drop => present && r.len() == 1 && r[0] is Ok && self.record@ is Some,
            LockdownAt::Clear => present && r.len() == self.calls().len() - 1 && r.len() > 0 && r[0] is Ok && (
            self.record@ is Some ==> r.len() == 2 && r[1] is Ok),
            LockdownAt::Over(result) => r.len() == self.calls().len() && outcome_view(result)
                == lockdown_disengage_result(self.presence@, self.record@, r),
        }
    }

    /// The call to make now, `None` when the lockdown has been dealt with.
    pub fn next(&self) -> (r: Option<PfCall>)
        requires
            self.wf(),
        ensures
            match r {
                Some(call) => self.replies().len() < self.calls().len() && call@
                    == self.calls()[self.replies().len() as int],
                None => self.over(),
            },
    {
        match &self.at {
            LockdownAt::Restore(call) => Some(copy_call(call)),
            LockdownAt::Drop => match &self.token {
                Some(token) => Some(PfCall::DropToken(token.clone())),
                None => None,
            },
            LockdownAt::Clear => Some(PfCall::ClearStanding),
            LockdownAt::Over(_) => None,
        }
    }

    /// What to log where the call that [`DisengageLockdown::next`] handed out fails and
    /// its failure does not show in the outcome.
    pub fn warning(&self) -> (w: Option<&'static str>)
        requires
            self.wf(),
            !self.over(),
        ensures
            warning_view(w) == if self.calls()[self.replies().len() as int] is ClearStanding {
                Some("lockdown-pf-state clear failed after disengage"@)
            } else {
                None
            },
    {
        match &self.at {
            LockdownAt::Clear => Some("lockdown-pf-state clear failed after disengage"),
            _ => None,
        }
    }

    /// Take what became of the call that [`DisengageLockdown::next`] handed out.
    pub fn feed(self, reply: Result<(), RoutingError>) -> (m: Self)
        requires
            self.wf(),
            !self.over(),
        ensures
            m.wf(),
            m.presence() == self.presence(),
            m.record() == self.record(),
            m.replies() == self.replies().push(outcome_view(reply)),
    {
        let ghost r = self.replies@.push(outcome_view(reply));
        let mut at = LockdownAt::Over(Ok(()));
        match self.at {
            LockdownAt::Restore(_) => {
                match reply {
                    Ok(()) => {
                        if self.token.is_some() {
                            at = LockdownAt::Drop;
                        } else {
                            at = LockdownAt::Clear;
                        }
                    }
                    Err(e) => {
                        at = LockdownAt::Over(Err(e));
                    }
                }
            }
            LockdownAt::Drop => {
                match reply {
                    Ok(()) => {
                        at = LockdownAt::Clear;
                    }
                    Err(e) => {
                        at = LockdownAt::Over(Err(e));
                    }
                }
            }
            LockdownAt::Clear => {}
            LockdownAt::Over(_) => {}
        }
        DisengageLockdown {
            token: self.token,
            at,
            presence: self.presence,
            record: self.record,
            replies: Ghost(r),
        }
    }

    /// The outcome once the lockdown has been dealt with.
    pub fn finish(self) -> (r: Result<(), RoutingError>)
        requires
            self.wf(),
            self.over(),
        ensures
            outcome_view(r) == lockdown_disengage_result(self.presence(), self.record(), self.replies()),
    {
        match self.at {
            LockdownAt::Over(result) => result,
            _ => Ok(()),
        }
    }
}

fn copy_call(call: &PfCall) -> (r: PfCall)
    ensures
        r == *call,
{
    match call {
        PfCall::ReloadDefault => PfCall::ReloadDefault,
        PfCall::LoadRuleset(text) => PfCall::LoadRuleset(text.clone()),
        PfCall::DropToken(token) => PfCall::DropToken(token.clone()),
        PfCall::ClearTransient => PfCall::ClearTransient,
        PfCall::ClearStanding => PfCall::ClearStanding,
    }
}

pub open spec fn record_view(st: Option<LockdownPfState>) -> Option<LockdownPfStateView> {
    match st {
        Some(st) => Some(st@),
        None => None,
    }
}

/// Start taking a standing lockdown down. What is there is decided by the presence,
/// not by the record: a lost record does not pass for an absent cover.
pub fn disengage_lockdown_with(presence: CoverPresence, st: Option<LockdownPfState>) -> (m: DisengageLockdown)
    ensures
        m.wf(),
        m.presence() == presence,
        m.record() == record_view(st),
        m.replies().len() == 0,
{
    let ghost record = record_view(st);
    let at = match presence {
        CoverPresence::Absent => LockdownAt::Over(Ok(())),
        CoverPresence::Unreachable | CoverPresence::Indeterminate => LockdownAt::Over(
            Err(
                RoutingError::RouteSetup(
                    "could not determine whether a lockdown cover is present; nothing was done — run `sudo pfctl -f /etc/pf.conf` to restore the system firewall manually".to_owned(),
                ),
            ),
        ),
        CoverPresence::Live | CoverPresence::Recorded => {
            let mut call = PfCall::ReloadDefault;
            if let Some(st) = &st {
                if st.main_snapshot_captured {
                    call = PfCall::LoadRuleset(
                        build_lockdown_restore_ruleset(st.nat_snapshot.as_str(), st.main_snapshot.as_str()),
                    );
                }
            }
            LockdownAt::Restore(call)
        }
    };
    let token = match st {
        Some(st) => Some(st.pf_token),
        None => None,
    };
    DisengageLockdown {
        token,
        at,
        presence: Ghost(presence),
        record: Ghost(record),
        replies: Ghost(Seq::empty()),
    }
}

/// What is known of the standing lockdown: the packet filter's own answer, and
/// where it gave no yes, the record.
pub open spec fn folded_presence(pf_label: Option<bool>, file: StateFile<LockdownPfState>) -> CoverPresence {
    if pf_label == Some(true) {
        CoverPresence::Live
    } else if !(file is Absent) {
        CoverPresence::Recorded
    } else if pf_label == Some(false) {
        CoverPresence::Absent
    } else {
        CoverPresence::Unreachable
    }
}

/// Fold the packet filter's answer and the record into one presence.
pub fn fold_presence(pf_label: Option<bool>, file: &StateFile<LockdownPfState>) -> (r: CoverPresence)
    ensures
        r == folded_presence(pf_label, *file),
{
    match (pf_label, file) {
        (Some(true), _) => CoverPresence::Live,
        (_, StateFile::Present(_)) => CoverPresence::Recorded,
        (_, StateFile::Unusable) => CoverPresence::Recorded,
        (Some(false), StateFile::Absent) => CoverPresence::Absent,
        (None, StateFile::Absent) => CoverPresence::Unreachable,
    }
}

/// What is known of the standing lockdown, from the listing of rule labels and
/// from what the disk held.
pub fn lockdown_cover_presence(
    labels: Result<CommandOutput, RoutingError>,
    stored: Stored<LockdownPfRecord>,
) -> (r: CoverPresence)
    ensures
        r == folded_presence(
            match labels {
                Ok(o) if o.success => Some(carries_label(o.stdout@)),
                _ => None,
            },
            presence(stored),
        ),
{
    let file = load_presence(stored);
    fold_presence(pf_label_answer(labels), &file)
}

/// Only the packet filter itself can say that a cover is live: a record alone never
/// does.
pub proof fn a_record_alone_is_never_live(file: StateFile<LockdownPfState>)
    ensures
        !(folded_presence(None, file) is Live),
        !(folded_presence(None, file) is Absent),
{
}

/// A cover passes for absent only where the packet filter said no and there is no
/// record, not even an unusable one.
pub proof fn absence_needs_both_sources(pf_label: Option<bool>, file: StateFile<LockdownPfState>)
    ensures
        folded_presence(pf_label, file) is Absent <==> pf_label == Some(false) && file is Absent,
        !(folded_presence(pf_label, file) is Indeterminate),
{
}

/// A presence that is not established leads to no call, and to an error unless the
/// cover is known to be absent.
pub proof fn an_unestablished_presence_is_not_acted_on(
    presence: CoverPresence,
    st: Option<LockdownPfStateView>,
    r: Replies,
)
    requires
        !(presence is Live || presence is Recorded),
    ensures
        lockdown_disengage_calls(presence, st, r).len() == 0,
        lockdown_disengage_result(presence, st, r) is Ok <==> presence is Absent,
{
}

/// A lockdown is reported as taken down only after its restore succeeded, and its
/// record is cleared only then.
pub proof fn a_lockdown_is_down_only_when_restored(
    presence: CoverPresence,
    st: Option<LockdownPfStateView>,
    r: Replies,
)
    requires
        presence is Live || presence is Recorded,
        lockdown_disengage_result(presence, st, r) is Ok || lockdown_disengage_calls(presence, st, r).contains(
            PfCallView::ClearStanding,
        ),
    ensures
        lockdown_disengage_calls(presence, st, r)[0] == lockdown_restore_call(st),
        r[0] is Ok,
{
}

} // verus!
