//! Engaging the standing lockdown.
//!
//! The packet filter's enable reference does not outlive a boot while the record
//! does, so engaging first finds out which of the two is there. The first engage
//! takes down the rules it is about to replace; a later one keeps what was taken
//! down then.

use vstd::prelude::*;
use crate::error::{outcome_view, RoutingError, RoutingErrorView};
use crate::ip::IpAddr;
use crate::routing::failclosed::disengage::record_view;
use crate::routing::failclosed::engage::{load_cover_ruleset, CoverKind, CoverLoad, LoadCall};
use crate::routing::failclosed::lockdown_pf_state::{LockdownPfState, LockdownPfStateView, SCHEMA_VERSION};
use crate::routing::failclosed::pf_output::{engage_pf_action, text_view, PfEngageAction};
use crate::routing::failclosed::pf_rules::{build_lockdown_main_ruleset, lockdown_ruleset};
use crate::routing::failclosed::release::warning_view;
use crate::routing::recovery::CoverPresence;

verus! {

/// The record of a first engage. Where the lockdown is already loaded, the filter
/// rules are its own and no policy of the host's, so none are recorded; the
/// translation rules are the host's either way.
pub open spec fn baseline(
    token: Seq<char>,
    presence: CoverPresence,
    filter: Seq<char>,
    translation: Seq<char>,
) -> LockdownPfStateView {
    LockdownPfStateView {
        version: SCHEMA_VERSION,
        pf_token: token,
        main_snapshot: if presence is Live {
            seq![]
        } else {
            filter
        },
        nat_snapshot: translation,
        main_snapshot_captured: !(presence is Live),
    }
}

/// Build the record of a first engage.
pub fn persist_baseline(
    token: &str,
    presence: CoverPresence,
    main_snapshot: String,
    nat_snapshot: String,
) -> (r: LockdownPfState)
    ensures
        r@ == baseline(token@, presence, main_snapshot@, nat_snapshot@),
{
    let captured = presence != CoverPresence::Live;
    LockdownPfState {
        version: SCHEMA_VERSION,
        pf_token: token.to_owned(),
        main_snapshot: if captured {
            main_snapshot
        } else {
            String::new()
        },
        nat_snapshot,
        main_snapshot_captured: captured,
    }
}

/// One step of engaging the lockdown.
#[derive(Debug, Clone, PartialEq, Eq)]
pub enum LockdownCall {
    /// Ask whether the packet filter is enabled.
    PfEnabled,
    /// Read the lockdown's record.
    LoadStanding,
    /// Enable the packet filter, taking a reference.
    EnableCaptureToken,
    /// Find out whether the lockdown is already loaded.
    Presence,
    /// Print the loaded filter rules.
    ShowFilter,
    /// Print the loaded translation rules.
    ShowTranslation,
    /// Write the record.
    SaveStanding(LockdownPfState),
    /// Drop the reference again.
    DropToken(String),
    LoadRuleset(String),
    /// Take the lockdown down again.
    Disengage,
}

/// [`LockdownCall`] with its text as characters.
pub enum LockdownCallView {
    PfEnabled,
    LoadStanding,
    EnableCaptureToken,
    Presence,
    ShowFilter,
    ShowTranslation,
    SaveStanding(LockdownPfStateView),
    DropToken(Seq<char>),
    LoadRuleset(Seq<char>),
    Disengage,
}

impl View for LockdownCall {
    type V = LockdownCallView;

    open spec fn view(&self) -> LockdownCallView {
        match self {
            LockdownCall::PfEnabled => LockdownCallView::PfEnabled,
            LockdownCall::LoadStanding => LockdownCallView::LoadStanding,
            LockdownCall::EnableCaptureToken => LockdownCallView::EnableCaptureToken,
            LockdownCall::Presence => LockdownCallView::Presence,
            LockdownCall::ShowFilter => LockdownCallView::ShowFilter,
            LockdownCall::ShowTranslation => LockdownCallView::ShowTranslation,
            LockdownCall::SaveStanding(st) => LockdownCallView::SaveStanding(st@),
            LockdownCall::DropToken(token) => LockdownCallView::DropToken(token@),
            LockdownCall::LoadRuleset(text) => LockdownCallView::LoadRuleset(text@),
            LockdownCall::Disengage => LockdownCallView::Disengage,
        }
    }
}

/// What became of one step.
#[derive(Debug, PartialEq, Eq)]
pub enum LockdownReply {
    /// To [`LockdownCall::PfEnabled`].
    Enabled(Result<bool, RoutingError>),
    /// To [`LockdownCall::LoadStanding`].
    Standing(Option<LockdownPfState>),
    /// To [`LockdownCall::EnableCaptureToken`].
    Token(Result<String, RoutingError>),
    /// To [`LockdownCall::Presence`].
    Presence(CoverPresence),
    /// To [`LockdownCall::ShowFilter`] and [`LockdownCall::ShowTranslation`].
    Text(Result<String, RoutingError>),
    /// To [`LockdownCall::SaveStanding`], an error in the operating system's words.
    Saved(Result<(), String>),
    /// To every other call.
    Done(Result<(), RoutingError>),
}

/// [`LockdownReply`] with its text as characters.
pub enum LockdownReplyView {
    Enabled(Result<bool, RoutingErrorView>),
    Standing(Option<LockdownPfStateView>),
    Token(Result<Seq<char>, RoutingErrorView>),
    Presence(CoverPresence),
    Text(Result<Seq<char>, RoutingErrorView>),
    Saved(Result<(), Seq<char>>),
    Done(Result<(), RoutingErrorView>),
}

impl View for LockdownReply {
    type V = LockdownReplyView;

    open spec fn view(&self) -> LockdownReplyView {
        match self {
            LockdownReply::Enabled(r) => LockdownReplyView::Enabled(
                match *r {
                    Ok(enabled) => Ok(enabled),
                    Err(e) => Err(e@),
                },
            ),
            LockdownReply::Standing(st) => LockdownReplyView::Standing(record_view(*st)),
            LockdownReply::Token(r) => LockdownReplyView::Token(text_view(*r)),
            LockdownReply::Presence(p) => LockdownReplyView::Presence(*p),
            LockdownReply::Text(r) => LockdownReplyView::Text(text_view(*r)),
            LockdownReply::Saved(r) => LockdownReplyView::Saved(
                match *r {
                    Ok(()) => Ok(()),
                    Err(e) => Err(e@),
                },
            ),
            LockdownReply::Done(r) => LockdownReplyView::Done(outcome_view(*r)),
        }
    }
}

impl LockdownReplyView {
    /// The reply is of the kind that the call asks for.
    pub open spec fn fits(self, call: LockdownCallView) -> bool {
        match call {
            LockdownCallView::PfEnabled => self is Enabled,
            LockdownCallView::LoadStanding => self is Standing,
            LockdownCallView::EnableCaptureToken => self is Token,
            LockdownCallView::Presence => self is Presence,
            LockdownCallView::ShowFilter | LockdownCallView::ShowTranslation => self is Text,
            LockdownCallView::SaveStanding(_) => self is Saved,
            LockdownCallView::DropToken(_) | LockdownCallView::LoadRuleset(_) | LockdownCallView::Disengage => self
                is Done,
        }
    }
}

/// The calls made and the outcome.
pub struct LockdownRun {
    pub calls: Seq<LockdownCallView>,
    pub result: Result<Seq<char>, RoutingErrorView>,
}

impl LockdownRun {
    /// One call first, then the rest.
    pub open spec fn after(self, call: LockdownCallView) -> Self {
        LockdownRun { calls: seq![call] + self.calls, result: self.result }
    }

    /// Nothing more, with this outcome.
    pub open spec fn end(result: Result<Seq<char>, RoutingErrorView>) -> Self {
        LockdownRun { calls: seq![], result }
    }

    /// Give the reference back, and fail.
    pub open spec fn unwind(token: Seq<char>, e: RoutingErrorView) -> Self {
        LockdownRun { calls: seq![LockdownCallView::DropToken(token)], result: Err(e) }
    }
}

/// The replies so far, in order.
pub type LockdownReplies = Seq<LockdownReplyView>;

/// Load the ruleset, which carries the host's translation rules on. Where it will
/// not load, the lockdown is taken down again.
pub open spec fn load_run(
    tun: Seq<char>,
    server: IpAddr,
    token: Seq<char>,
    translation: Seq<char>,
    r: LockdownReplies,
) -> LockdownRun {
    let load = LockdownCallView::LoadRuleset(lockdown_ruleset(tun, server, translation));
    match r[0] {
        LockdownReplyView::Done(Err(e)) => LockdownRun {
            calls: seq![load, LockdownCallView::Disengage],
            result: Err(e),
        },
        _ => LockdownRun { calls: seq![load], result: Ok(token) },
    }
}

/// The record with another token.
pub open spec fn retokened(st: LockdownPfStateView, token: Seq<char>) -> LockdownPfStateView {
    LockdownPfStateView { version: SCHEMA_VERSION, pf_token: token, ..st }
}

/// The record is there and the reference is gone: take a new one, and record it
/// with what was taken down before.
pub open spec fn reenable_run(
    tun: Seq<char>,
    server: IpAddr,
    st: LockdownPfStateView,
    r: LockdownReplies,
) -> LockdownRun {
    (match r[0] {
        LockdownReplyView::Token(Ok(token)) => (match r[1] {
            LockdownReplyView::Saved(Err(e)) => LockdownRun::unwind(
                token,
                RoutingErrorView::RouteSetup("failed to re-persist lockdown-pf-state: "@ + e),
            ),
            _ => load_run(tun, server, token, st.nat_snapshot, r.skip(2)),
        }).after(LockdownCallView::SaveStanding(retokened(st, token))),
        LockdownReplyView::Token(Err(e)) => LockdownRun::end(Err(e)),
        _ => LockdownRun::end(Ok(seq![])),
    }).after(LockdownCallView::EnableCaptureToken)
}

/// What was taken down is recorded before anything is loaded.
pub open spec fn capture_run(
    tun: Seq<char>,
    server: IpAddr,
    token: Seq<char>,
    presence: CoverPresence,
    r: LockdownReplies,
) -> LockdownRun {
    (match r[0] {
        LockdownReplyView::Text(Ok(filter)) => (match r[1] {
            LockdownReplyView::Text(Ok(translation)) => (match r[2] {
                LockdownReplyView::Saved(Err(e)) => LockdownRun::unwind(
                    token,
                    RoutingErrorView::RouteSetup("failed to persist lockdown-pf-state: "@ + e),
                ),
                _ => load_run(tun, server, token, translation, r.skip(3)),
            }).after(LockdownCallView::SaveStanding(baseline(token, presence, filter, translation))),
            LockdownReplyView::Text(Err(e)) => LockdownRun::unwind(token, e),
            _ => LockdownRun::end(Ok(seq![])),
        }).after(LockdownCallView::ShowTranslation),
        LockdownReplyView::Text(Err(e)) => LockdownRun::unwind(token, e),
        _ => LockdownRun::end(Ok(seq![])),
    }).after(LockdownCallView::ShowFilter)
}

/// No record: take a reference, and take the host's rules down.
pub open spec fn fresh_run(tun: Seq<char>, server: IpAddr, r: LockdownReplies) -> LockdownRun {
    (match r[0] {
        LockdownReplyView::Token(Ok(token)) => (match r[1] {
            LockdownReplyView::Presence(presence) => capture_run(tun, server, token, presence, r.skip(2)),
            _ => LockdownRun::end(Ok(seq![])),
        }).after(LockdownCallView::Presence),
        LockdownReplyView::Token(Err(e)) => LockdownRun::end(Err(e)),
        _ => LockdownRun::end(Ok(seq![])),
    }).after(LockdownCallView::EnableCaptureToken)
}

/// Engaging the lockdown, where `r` are the replies: the calls, and the token or
/// why there is no lockdown.
pub open spec fn lockdown_run(tun: Seq<char>, server: IpAddr, r: LockdownReplies) -> LockdownRun {
    (match r[0] {
        LockdownReplyView::Enabled(Ok(enabled)) => (match r[1] {
            LockdownReplyView::Standing(None) => fresh_run(tun, server, r.skip(2)),
            LockdownReplyView::Standing(Some(st)) => if enabled {
                load_run(tun, server, st.pf_token, st.nat_snapshot, r.skip(2))
            } else {
                reenable_run(tun, server, st, r.skip(2))
            },
            _ => LockdownRun::end(Ok(seq![])),
        }).after(LockdownCallView::LoadStanding),
        LockdownReplyView::Enabled(Err(e)) => LockdownRun::end(Err(e)),
        _ => LockdownRun::end(Ok(seq![])),
    }).after(LockdownCallView::PfEnabled)
}

enum LockAt {
    Query,
    LoadStanding(bool),
    EnableAgain(LockdownPfState),
    SaveAgain(LockdownPfState),
    EnableFresh,
    Presence(String),
    ShowFilter(String, CoverPresence),
    ShowTranslation(String, CoverPresence, String),
    SaveBaseline(LockdownPfState),
    Load(String, String, CoverLoad),
    Unwind(String, RoutingError, bool),
    Disengage(RoutingError),
    Over(Result<String, RoutingError>),
}

/// The replies so far lead to loading the ruleset with this token and these
/// translation rules, and the last of them is the one before the load.
spec fn ready(r: LockdownReplies, token: Seq<char>, translation: Seq<char>) -> bool {
    ||| {
        &&& r.len() == 2
        &&& r[0] == LockdownReplyView::Enabled(Ok(true))
        &&& r[1] matches LockdownReplyView::Standing(Some(st))
        &&& st.pf_token == token
        &&& st.nat_snapshot == translation
    }
    ||| {
        &&& r.len() == 4
        &&& r[0] == LockdownReplyView::Enabled(Ok(false))
        &&& r[1] matches LockdownReplyView::Standing(Some(st))
        &&& r[2] == LockdownReplyView::Token(Ok(token))
        &&& r[3] == LockdownReplyView::Saved(Ok(()))
        &&& st.nat_snapshot == translation
    }
    ||| {
        &&& r.len() == 7
        &&& r[0] matches LockdownReplyView::Enabled(Ok(_))
        &&& r[1] == LockdownReplyView::Standing(None)
        &&& r[2] == LockdownReplyView::Token(Ok(token))
        &&& r[3] is Presence
        &&& r[4] matches LockdownReplyView::Text(Ok(_))
        &&& r[5] == LockdownReplyView::Text(Ok(translation))
        &&& r[6] == LockdownReplyView::Saved(Ok(()))
    }
}

/// What follows once the ruleset is to be loaded after `k` replies.
proof fn lemma_load(
    tun: Seq<char>,
    server: IpAddr,
    r: LockdownReplies,
    k: int,
    token: Seq<char>,
    translation: Seq<char>,
)
    requires
        0 <= k <= r.len(),
        ready(r.take(k), token, translation),
    ensures
        ({
            let run = lockdown_run(tun, server, r);
            &&& k < run.calls.len()
            &&& run.calls[k] == LockdownCallView::LoadRuleset(lockdown_ruleset(tun, server, translation))
            &&& k < r.len() ==> match r[k] {
                LockdownReplyView::Done(Err(e)) => run.calls.len() == k + 2 && run.calls[k + 1] is Disengage
                    && run.result == Err::<Seq<char>, RoutingErrorView>(e),
                _ => run.calls.len() == k + 1 && run.result == Ok::<Seq<char>, RoutingErrorView>(token),
            }
        }),
{
    let t = r.take(k);
    assert(forall|i: int| 0 <= i < k ==> t[i] == r[i]);
    assert(r.len() >= 4 ==> r.skip(2).skip(2) =~= r.skip(4));
    assert(r.len() >= 7 ==> r.skip(2).skip(2).skip(3) =~= r.skip(7));
    assert(k < r.len() ==> r.skip(k)[0] == r[k]);
}

/// The lockdown being engaged.
pub struct EngageLockdown {
    tun_name: String,
    server_ip: IpAddr,
    at: LockAt,
    replies: Ghost<LockdownReplies>,
}

impl EngageLockdown {
    pub closed spec fn tun_name(self) -> Seq<char> {
        self.tun_name@
    }

    pub closed spec fn server_ip(self) -> IpAddr {
        self.server_ip
    }

    pub closed spec fn replies(self) -> LockdownReplies {
        self.replies@
    }

    pub open spec fn run(self) -> LockdownRun {
        lockdown_run(self.tun_name(), self.server_ip(), self.replies())
    }

    /// Every call has been made.
    pub open spec fn over(self) -> bool {
        self.replies().len() == self.run().calls.len()
    }

    /// The call that is to be made now.
    pub open spec fn current(self) -> LockdownCallView {
        self.run().calls[self.replies().len() as int]
    }

    /// The packet filter's state and the record have been read.
    spec fn read(self, enabled: bool, st: Option<LockdownPfStateView>) -> bool {
        &&& self.replies@.len() >= 2
        &&& self.replies@[0] == LockdownReplyView::Enabled(Ok(enabled))
        &&& self.replies@[1] == LockdownReplyView::Standing(st)
    }

    pub closed spec fn wf(self) -> bool {
        let r = self.replies@;
        match self.at {
            LockAt::Query => r.len() == 0,
            LockAt::LoadStanding(enabled) => r.len() == 1 && r[0] == LockdownReplyView::Enabled(Ok(enabled)),
            LockAt::EnableAgain(st) => r.len() == 2 && self.read(false, Some(st@)),
            LockAt::SaveAgain(st) => {
                &&& r.len() == 3
                &&& r[0] == LockdownReplyView::Enabled(Ok(false))
                &&& r[1] matches LockdownReplyView::Standing(Some(before))
                &&& r[2] == LockdownReplyView::Token(Ok(st.pf_token@))
                &&& st@ == retokened(before, st.pf_token@)
            },
            LockAt::EnableFresh => r.len() == 2 && (self.read(true, None) || self.read(false, None)),
            LockAt::Presence(token) => {
                &&& r.len() == 3
                &&& self.read(true, None) || self.read(false, None)
                &&& r[2] == LockdownReplyView::Token(Ok(token@))
            },
            LockAt::ShowFilter(token, presence) => {
                &&& r.len() == 4
                &&& self.read(true, None) || self.read(false, None)
                &&& r[2] == LockdownReplyView::Token(Ok(token@))
                &&& r[3] == LockdownReplyView::Presence(presence)
            },
            LockAt::ShowTranslation(token, presence, filter) => {
                &&& r.len() == 5
                &&& self.read(true, None) || self.read(false, None)
                &&& r[2] == LockdownReplyView::Token(Ok(token@))
                &&& r[3] == LockdownReplyView::Presence(presence)
                &&& r[4] == LockdownReplyView::Text(Ok(filter@))
            },
            LockAt::SaveBaseline(st) => {
                &&& r.len() == 6
                &&& self.read(true, None) || self.read(false, None)
                &&& r[2] == LockdownReplyView::Token(Ok(st.pf_token@))
                &&& r[3] matches LockdownReplyView::Presence(presence)
                &&& r[4] matches LockdownReplyView::Text(Ok(filter))
                &&& r[5] matches LockdownReplyView::Text(Ok(translation))
                &&& st@ == baseline(st.pf_token@, presence, filter, translation)
            },
            LockAt::Load(token, translation, load) => {
                &&& ready(r, token@, translation@)
                &&& load.wf() && load.replies().len() == 0
                &&& load.kind() is Lockdown
                &&& load.ruleset() == lockdown_ruleset(self.tun_name@, self.server_ip, translation@)
            },
            LockAt::Unwind(token, e, again) => {
                &&& r.len() == self.run().calls.len() - 1
                &&& self.run().calls.last() == LockdownCallView::DropToken(token@)
                &&& self.run().result == Err::<Seq<char>, RoutingErrorView>(e@)
                &&& r.len() == 4 || r.len() == 5 || r.len() == 6 || r.len() == 7
                &&& self.unwinding()
                &&& again <==> r[1]->Standing_0 is Some
            },
            LockAt::Disengage(e) => {
                &&& r.len() > 0
                &&& self.disengaging()
                &&& r.last() == LockdownReplyView::Done(Err(e@))
            },
            LockAt::Over(result) => {
                &&& r.len() == self.run().calls.len()
                &&& text_view(result) == self.run().result
            },
        }
    }

    /// The last reply is the failure that gives the reference back.
    spec fn unwinding(self) -> bool {
        let r = self.replies@;
        &&& r.len() >= 4
        &&& r[0] matches LockdownReplyView::Enabled(Ok(enabled))
        &&& r[1] matches LockdownReplyView::Standing(st)
        &&& r[2] matches LockdownReplyView::Token(Ok(_))
        &&& if st is Some {
            &&& !enabled
            &&& r.len() == 4
            &&& r[3] matches LockdownReplyView::Saved(Err(_))
        } else {
            &&& r.len() >= 5
            &&& r[3] is Presence
            &&& (r.len() == 5 ==> r[4] matches LockdownReplyView::Text(Err(_)))
            &&& (r.len() >= 6 ==> r[4] matches LockdownReplyView::Text(Ok(_)))
            &&& (r.len() == 6 ==> r[5] matches LockdownReplyView::Text(Err(_)))
            &&& (r.len() == 7 ==> r[5] matches LockdownReplyView::Text(Ok(_)))
            &&& (r.len() == 7 ==> r[6] matches LockdownReplyView::Saved(Err(_)))
        }
    }

    /// The last reply is a load that failed.
    spec fn disengaging(self) -> bool {
        let r = self.replies@;
        &&& r.len() > 0
        &&& exists|token: Seq<char>, translation: Seq<char>| #[trigger]
            ready(r.take(r.len() - 1), token, translation)
        &&& r.last() matches LockdownReplyView::Done(Err(_))
    }

    /// Load the ruleset that carries these translation rules on.
    fn loading(tun_name: &str, server_ip: IpAddr, token: String, translation: String) -> (r: LockAt)
        ensures
            r matches LockAt::Load(t, n, load) && t == token && n == translation && load.wf() && load.replies().len()
                == 0 && load.kind() is Lockdown && load.ruleset() == lockdown_ruleset(
                tun_name@,
                server_ip,
                translation@,
            ),
    {
        let text = build_lockdown_main_ruleset(tun_name, server_ip, translation.as_str());
        LockAt::Load(token, translation, load_cover_ruleset(CoverKind::Lockdown, text))
    }

    /// The call to make now, `None` when engaging is over.
    pub fn next(&self) -> (c: Option<LockdownCall>)
        requires
            self.wf(),
        ensures
            match c {
                Some(call) => self.replies().len() < self.run().calls.len() && call@ == self.current(),
                None => self.over(),
            },
    {
        proof {
            self.lemma_position();
        }
        match &self.at {
            LockAt::Query => Some(LockdownCall::PfEnabled),
            LockAt::LoadStanding(_) => Some(LockdownCall::LoadStanding),
            LockAt::EnableAgain(_) => Some(LockdownCall::EnableCaptureToken),
            LockAt::SaveAgain(st) => Some(LockdownCall::SaveStanding(copy_state(st))),
            LockAt::EnableFresh => Some(LockdownCall::EnableCaptureToken),
            LockAt::Presence(_) => Some(LockdownCall::Presence),
            LockAt::ShowFilter(_, _) => Some(LockdownCall::ShowFilter),
            LockAt::ShowTranslation(_, _, _) => Some(LockdownCall::ShowTranslation),
            LockAt::SaveBaseline(st) => Some(LockdownCall::SaveStanding(copy_state(st))),
            LockAt::Load(_, _, load) => match load.next() {
                Some(LoadCall::LoadRuleset(text)) => Some(LockdownCall::LoadRuleset(text)),
                _ => None,
            },
            LockAt::Unwind(token, _, _) => Some(LockdownCall::DropToken(token.clone())),
            LockAt::Disengage(_) => Some(LockdownCall::Disengage),
            LockAt::Over(_) => None,
        }
    }

    /// What to log where the call that [`EngageLockdown::next`] handed out fails and its
    /// failure does not show in the outcome.
    pub fn warning(&self) -> (w: Option<&'static str>)
        requires
            self.wf(),
            !self.over(),
        ensures
            warning_view(w) == if self.current() is DropToken {
                if self.replies()[1]->Standing_0 is Some {
                    Some("pfctl -X failed unwinding a failed lockdown re-enable"@)
                } else {
                    Some("pfctl -X failed unwinding a failed lockdown engage"@)
                }
            } else {
                None
            },
    {
        proof {
            self.lemma_position();
        }
        match &self.at {
            LockAt::Unwind(_, _, again) => if *again {
                Some("pfctl -X failed unwinding a failed lockdown re-enable")
            } else {
                Some("pfctl -X failed unwinding a failed lockdown engage")
            },
            _ => None,
        }
    }

    /// What to log before the call that [`EngageLockdown::next`] hands out is made: that
    /// a first record is written without the host's filter rules.
    pub fn notice(&self) -> (w: Option<&'static str>)
        requires
            self.wf(),
            !self.over(),
        ensures
            warning_view(w) == if self.current() is SaveStanding && self.replies()[1]->Standing_0 is None
                && self.replies()[3]->Presence_0 is Live {
                Some(
                    "a lockdown cover is already loaded, so there is no pre-lockdown host ruleset to capture; recording no baseline (a restore will reload /etc/pf.conf)"@,
                )
            } else {
                None
            },
    {
        proof {
            self.lemma_position();
        }
        match &self.at {
            LockAt::SaveBaseline(st) => if st.main_snapshot_captured {
                None
            } else {
                Some(
                    "a lockdown cover is already loaded, so there is no pre-lockdown host ruleset to capture; recording no baseline (a restore will reload /etc/pf.conf)",
                )
            },
            _ => None,
        }
    }

    /// Where the run stands.
    proof fn lemma_position(self)
        requires
            self.wf(),
        ensures
            self.at is Over <==> self.over(),
            self.replies@.len() <= self.run().calls.len(),
            match self.at {
                LockAt::Query => self.current() is PfEnabled,
                LockAt::LoadStanding(_) => self.current() is LoadStanding,
                LockAt::EnableAgain(_) | LockAt::EnableFresh => self.current() is EnableCaptureToken,
                LockAt::SaveAgain(st) | LockAt::SaveBaseline(st) => self.current() == LockdownCallView::SaveStanding(
                    st@,
                ),
                LockAt::Presence(_) => self.current() is Presence,
                LockAt::ShowFilter(_, _) => self.current() is ShowFilter,
                LockAt::ShowTranslation(_, _, _) => self.current() is ShowTranslation,
                LockAt::Load(_, translation, _) => self.current() == LockdownCallView::LoadRuleset(
                    lockdown_ruleset(self.tun_name@, self.server_ip, translation@),
                ),
                LockAt::Unwind(token, _, _) => self.current() == LockdownCallView::DropToken(token@),
                LockAt::Disengage(_) => self.current() is Disengage,
                LockAt::Over(_) => true,
            },
    {
        let r = self.replies@;
        if let LockAt::Load(token, translation, _) = &self.at {
            assert(r.take(r.len() as int) =~= r);
            lemma_load(self.tun_name@, self.server_ip, r, r.len() as int, token@, translation@);
        }
        if self.at is Disengage {
            let k = r.len() - 1;
            let (token, translation) = choose|token: Seq<char>, translation: Seq<char>| #[trigger]
                ready(r.take(k), token, translation);
            lemma_load(self.tun_name@, self.server_ip, r, k, token, translation);
        }
    }

    /// Take what became of the call that [`EngageLockdown::next`] handed out.
    #[verifier::rlimit(40)]
    pub fn feed(self, reply: LockdownReply) -> (m: Self)
        requires
            self.wf(),
            !self.over(),
            reply@.fits(self.current()),
        ensures
            m.wf(),
            m.tun_name() == self.tun_name(),
            m.server_ip() == self.server_ip(),
            m.replies() == self.replies().push(reply@),
    {
        let ghost r = self.replies@.push(reply@);
        proof {
            self.lemma_position();
            assert(forall|i: int| 0 <= i < self.replies@.len() ==> r[i] == self.replies@[i]);
            let k = self.replies@.len() as int;
            assert(r.take(k) =~= self.replies@);
            assert(r.len() >= 4 ==> r.skip(2).skip(2) =~= r.skip(4));
            if let LockAt::Load(token, translation, _) = &self.at {
                lemma_load(self.tun_name@, self.server_ip, r, k, token@, translation@);
            }
            if self.at is Disengage {
                let (token, translation) = choose|token: Seq<char>, translation: Seq<char>| #[trigger]
                    ready(self.replies@.take(k - 1), token, translation);
                assert(r.take(k - 1) =~= self.replies@.take(k - 1));
                lemma_load(self.tun_name@, self.server_ip, r, k - 1, token, translation);
            }
        }
        let at = match self.at {
            LockAt::Query => match reply {
                LockdownReply::Enabled(Ok(enabled)) => LockAt::LoadStanding(enabled),
                LockdownReply::Enabled(Err(e)) => LockAt::Over(Err(e)),
                _ => LockAt::Query,
            },
            LockAt::LoadStanding(enabled) => match reply {
                LockdownReply::Standing(persisted) => match (
                    engage_pf_action(enabled, persisted.is_some()),
                    persisted,
                ) {
                    (PfEngageAction::ReuseToken, Some(st)) => Self::loading(
                        self.tun_name.as_str(),
                        self.server_ip,
                        st.pf_token,
                        st.nat_snapshot,
                    ),
                    (PfEngageAction::Reenable, Some(st)) => LockAt::EnableAgain(st),
                    _ => LockAt::EnableFresh,
                },
                _ => LockAt::Query,
            },
            LockAt::EnableAgain(st) => match reply {
                LockdownReply::Token(Ok(token)) => LockAt::SaveAgain(
                    LockdownPfState {
                        version: SCHEMA_VERSION,
                        pf_token: token,
                        main_snapshot: st.main_snapshot,
                        nat_snapshot: st.nat_snapshot,
                        main_snapshot_captured: st.main_snapshot_captured,
                    },
                ),
                LockdownReply::Token(Err(e)) => LockAt::Over(Err(e)),
                _ => LockAt::Query,
            },
            LockAt::SaveAgain(st) => match reply {
                LockdownReply::Saved(Ok(())) => Self::loading(
                    self.tun_name.as_str(),
                    self.server_ip,
                    st.pf_token,
                    st.nat_snapshot,
                ),
                LockdownReply::Saved(Err(e)) => {
                    let mut text = "failed to re-persist lockdown-pf-state: ".to_owned();
                    text.append(e.as_str());
                    LockAt::Unwind(st.pf_token, RoutingError::RouteSetup(text), true)
                }
                _ => LockAt::Query,
            },
            LockAt::EnableFresh => match reply {
                LockdownReply::Token(Ok(token)) => LockAt::Presence(token),
                LockdownReply::Token(Err(e)) => LockAt::Over(Err(e)),
                _ => LockAt::Query,
            },
            LockAt::Presence(token) => match reply {
                LockdownReply::Presence(presence) => LockAt::ShowFilter(token, presence),
                _ => LockAt::Query,
            },
            LockAt::ShowFilter(token, presence) => match reply {
                LockdownReply::Text(Ok(filter)) => LockAt::ShowTranslation(token, presence, filter),
                LockdownReply::Text(Err(e)) => LockAt::Unwind(token, e, false),
                _ => LockAt::Query,
            },
            LockAt::ShowTranslation(token, presence, filter) => match reply {
                LockdownReply::Text(Ok(translation)) => LockAt::SaveBaseline(
                    persist_baseline(token.as_str(), presence, filter, translation),
                ),
                LockdownReply::Text(Err(e)) => LockAt::Unwind(token, e, false),
                _ => LockAt::Query,
            },
            LockAt::SaveBaseline(st) => match reply {
                LockdownReply::Saved(Ok(())) => Self::loading(
                    self.tun_name.as_str(),
                    self.server_ip,
                    st.pf_token,
                    st.nat_snapshot,
                ),
                LockdownReply::Saved(Err(e)) => {
                    let mut text = "failed to persist lockdown-pf-state: ".to_owned();
                    text.append(e.as_str());
                    LockAt::Unwind(st.pf_token, RoutingError::RouteSetup(text), false)
                }
                _ => LockAt::Query,
            },
            LockAt::Load(token, _, load) => match reply {
                LockdownReply::Done(outcome) => match load.feed(outcome).finish() {
                    Ok(()) => LockAt::Over(Ok(token)),
                    Err(e) => LockAt::Disengage(e),
                },
                _ => LockAt::Query,
            },
            LockAt::Unwind(_, e, _) => LockAt::Over(Err(e)),
            LockAt::Disengage(e) => LockAt::Over(Err(e)),
            LockAt::Over(result) => LockAt::Over(result),
        };
        EngageLockdown { tun_name: self.tun_name, server_ip: self.server_ip, at, replies: Ghost(r) }
    }

    /// The outcome once engaging is over: the lockdown's token, or why there is no
    /// lockdown.
    pub fn finish(self) -> (r: Result<String, RoutingError>)
        requires
            self.wf(),
            self.over(),
        ensures
            text_view(r) == self.run().result,
    {
        proof {
            self.lemma_position();
        }
        match self.at {
            LockAt::Over(result) => result,
            _ => Ok(String::new()),
        }
    }
}

fn copy_state(st: &LockdownPfState) -> (r: LockdownPfState)
    ensures
        r == *st,
{
    LockdownPfState {
        version: st.version,
        pf_token: st.pf_token.clone(),
        main_snapshot: st.main_snapshot.clone(),
        nat_snapshot: st.nat_snapshot.clone(),
        main_snapshot_captured: st.main_snapshot_captured,
    }
}

/// Start engaging the lockdown.
pub fn engage_lockdown(server_ip: IpAddr, tun_name: &str) -> (m: EngageLockdown)
    ensures
        m.wf(),
        m.tun_name() == tun_name@,
        m.server_ip() == server_ip,
        m.replies().len() == 0,
{
    EngageLockdown { tun_name: tun_name.to_owned(), server_ip, at: LockAt::Query, replies: Ghost(Seq::empty()) }
}

/// Every call of a run has been answered, each with a reply of its kind.
pub open spec fn answered(tun: Seq<char>, server: IpAddr, r: LockdownReplies) -> bool {
    let calls = lockdown_run(tun, server, r).calls;
    &&& r.len() == calls.len()
    &&& forall|i: int| 0 <= i < r.len() ==> (#[trigger] r[i]).fits(calls[i])
}

proof fn lemma_answered(tun: Seq<char>, server: IpAddr, r: LockdownReplies)
    requires
        answered(tun, server, r),
    ensures
        r.len() >= 1,
        r[0] is Enabled,
        r[0]->Enabled_0 is Ok ==> r.len() >= 3 && r[1] is Standing && ({
            let st = r[1]->Standing_0;
            let token = r[2]->Token_0;
            if st is Some && r[0]->Enabled_0->Ok_0 {
                r[2] is Done
            } else if st is Some {
                r[2] is Token && (token is Ok ==> r.len() >= 4 && r[3] is Saved && (r[3]->Saved_0 is Ok ==> r.len() >= 5
                    && r[4] is Done))
            } else {
                r[2] is Token && (token is Ok ==> r.len() >= 5 && r[3] is Presence && r[4] is Text && (r[4]->Text_0
                    is Ok ==> r.len() >= 6 && r[5] is Text && (r[5]->Text_0 is Ok ==> r.len() >= 7 && r[6] is Saved && (
                r[6]->Saved_0 is Ok ==> r.len() >= 8 && r[7] is Done))))
            }
        }),
{
    let calls = lockdown_run(tun, server, r).calls;
    assert(r.len() >= 4 ==> r.skip(2).skip(2) =~= r.skip(4));
    assert(r[0].fits(calls[0]));
    if r.len() > 1 {
        assert(r[1].fits(calls[1]));
    }
    if r.len() > 2 {
        assert(r[2].fits(calls[2]));
    }
    if r.len() > 3 {
        assert(r[3].fits(calls[3]));
    }
    if r.len() > 4 {
        assert(r[4].fits(calls[4]));
    }
    if r.len() > 5 {
        assert(r[5].fits(calls[5]));
    }
    if r.len() > 6 {
        assert(r[6].fits(calls[6]));
        assert(r.skip(2).skip(2).skip(3) =~= r.skip(7));
    }
    if r.len() > 7 {
        assert(r[7].fits(calls[7]));
    }
}

/// The token that a run took.
pub open spec fn taken(r: LockdownReplies) -> Option<Seq<char>> {
    match (r[0], r[2]) {
        (LockdownReplyView::Enabled(Ok(_)), LockdownReplyView::Token(Ok(token))) => Some(token),
        _ => None,
    }
}

/// Nothing is loaded unless a record is on disk: one that was there, or one that
/// was written before.
pub proof fn a_lockdown_is_recorded_before_it_blocks(tun: Seq<char>, server: IpAddr, r: LockdownReplies, i: int)
    requires
        answered(tun, server, r),
        0 <= i < r.len(),
        lockdown_run(tun, server, r).calls[i] is LoadRuleset,
    ensures
        ({
            let calls = lockdown_run(tun, server, r).calls;
            ||| r[1] matches LockdownReplyView::Standing(Some(_))
            ||| 0 < i && calls[i - 1] is SaveStanding && r[i - 1] is Saved && r[i - 1]->Saved_0 is Ok
        }),
{
    lemma_answered(tun, server, r);
    assert(r.len() >= 4 ==> r.skip(2).skip(2) =~= r.skip(4));
    assert(r.len() >= 7 ==> r.skip(2).skip(2).skip(3) =~= r.skip(7));
    let calls = lockdown_run(tun, server, r).calls;
    assert(calls[0] is PfEnabled);
    if r[0]->Enabled_0 is Ok && r[1]->Standing_0 is None {
        assert(calls[1] is LoadStanding);
        assert(calls[2] is EnableCaptureToken);
        if r[2]->Token_0 is Ok {
            assert(calls[3] is Presence);
            assert(calls[4] is ShowFilter);
            if r[4]->Text_0 is Ok {
                assert(calls[5] is ShowTranslation);
                if r[5]->Text_0 is Ok {
                    assert(calls[6] is SaveStanding);
                    if r[6]->Saved_0 is Ok {
                        assert(calls.len() <= 9);
                        assert(calls.len() == 9 ==> calls[8] is Disengage);
                    } else {
                        assert(calls.len() == 8 && calls[7] is DropToken);
                    }
                } else {
                    assert(calls.len() == 7 && calls[6] is DropToken);
                }
            } else {
                assert(calls.len() == 6 && calls[5] is DropToken);
            }
        } else {
            assert(calls.len() == 3);
        }
    } else if r[0]->Enabled_0 is Err {
        assert(calls.len() == 1);
    }
}

/// A run that fails after it took a token gives it back: it drops the token, or
/// takes the lockdown down where the ruleset would not load.
pub proof fn a_failed_lockdown_gives_its_token_back(tun: Seq<char>, server: IpAddr, r: LockdownReplies)
    requires
        answered(tun, server, r),
        lockdown_run(tun, server, r).result is Err,
        taken(r) is Some,
    ensures
        ({
            let calls = lockdown_run(tun, server, r).calls;
            ||| calls.last() == LockdownCallView::DropToken(taken(r)->0)
            ||| calls.last() is Disengage
        }),
{
    lemma_answered(tun, server, r);
    assert(r.len() >= 4 ==> r.skip(2).skip(2) =~= r.skip(4));
    assert(r.len() >= 7 ==> r.skip(2).skip(2).skip(3) =~= r.skip(7));
}

/// A lockdown that is already held, by a record and an enabled packet filter, takes
/// no second reference and rewrites no record.
pub proof fn a_held_lockdown_is_only_reloaded(
    tun: Seq<char>,
    server: IpAddr,
    r: LockdownReplies,
    st: LockdownPfStateView,
)
    requires
        answered(tun, server, r),
        r[0] == LockdownReplyView::Enabled(Ok(true)),
        r[1] == LockdownReplyView::Standing(Some(st)),
    ensures
        lockdown_run(tun, server, r).calls.take(3) == seq![
            LockdownCallView::PfEnabled,
            LockdownCallView::LoadStanding,
            LockdownCallView::LoadRuleset(lockdown_ruleset(tun, server, st.nat_snapshot)),
        ],
        lockdown_run(tun, server, r).calls.len() > 3 ==> lockdown_run(tun, server, r).calls[3] is Disengage
            && lockdown_run(tun, server, r).calls.len() == 4,
        lockdown_run(tun, server, r).result is Ok ==> lockdown_run(tun, server, r).result == Ok::<
            Seq<char>,
            RoutingErrorView,
        >(st.pf_token),
{
    lemma_answered(tun, server, r);
    assert(lockdown_run(tun, server, r).calls.take(3) =~= seq![
        LockdownCallView::PfEnabled,
        LockdownCallView::LoadStanding,
        LockdownCallView::LoadRuleset(lockdown_ruleset(tun, server, st.nat_snapshot)),
    ]);
}

/// Engaging again after a reboot keeps what the first engage took down: only the
/// token changes.
pub proof fn a_reenable_keeps_the_snapshots(
    tun: Seq<char>,
    server: IpAddr,
    r: LockdownReplies,
    st: LockdownPfStateView,
    i: int,
)
    requires
        answered(tun, server, r),
        r[0] == LockdownReplyView::Enabled(Ok(false)),
        r[1] == LockdownReplyView::Standing(Some(st)),
        0 <= i < r.len(),
        lockdown_run(tun, server, r).calls[i] is SaveStanding,
    ensures
        taken(r) is Some,
        lockdown_run(tun, server, r).calls[i] == LockdownCallView::SaveStanding(retokened(st, taken(r)->0)),
{
    lemma_answered(tun, server, r);
    assert(r.len() >= 4 ==> r.skip(2).skip(2) =~= r.skip(4));
}

/// A lockdown never records its own rules as the host's policy, and always records
/// the host's translation rules.
pub proof fn a_lockdown_never_captures_itself(
    token: Seq<char>,
    presence: CoverPresence,
    filter: Seq<char>,
    translation: Seq<char>,
)
    ensures
        baseline(token, presence, filter, translation).main_snapshot_captured <==> !(presence is Live),
        presence is Live ==> baseline(token, presence, filter, translation).main_snapshot.len() == 0,
        baseline(token, presence, filter, translation).nat_snapshot == translation,
{
}

/// The lockdown's record as the disk holds it before the `i`-th call: the one that was
/// written last, or else the one that was read.
pub open spec fn on_disk(calls: Seq<LockdownCallView>, r: LockdownReplies, i: int) -> Option<LockdownPfStateView>
    decreases i,
{
    if i <= 0 {
        None
    } else {
        match (calls[i - 1], r[i - 1]) {
            (LockdownCallView::SaveStanding(st), LockdownReplyView::Saved(Ok(()))) => Some(st),
            (LockdownCallView::LoadStanding, LockdownReplyView::Standing(st)) => st,
            _ => on_disk(calls, r, i - 1),
        }
    }
}

/// The `k`-th call is the load: it ends the run, or is followed by the taking down.
spec fn loaded_at(run: LockdownRun, r: LockdownReplies, k: int) -> bool {
    &&& r[k] is Done
    &&& r[k]->Done_0 is Ok ==> run.calls.len() == k + 1 && run.result is Ok
    &&& r[k]->Done_0 is Err ==> run.calls.len() == k + 2 && run.calls[k + 1] is Disengage && run.result is Err
}

/// What the calls of a run are, one by one.
proof fn lemma_calls(tun: Seq<char>, server: IpAddr, r: LockdownReplies)
    requires
        answered(tun, server, r),
    ensures
        ({
            let calls = lockdown_run(tun, server, r).calls;
            let read = r[0]->Enabled_0 is Ok;
            let st = r[1]->Standing_0;
            let held = st is Some && r[0]->Enabled_0->Ok_0;
            let token = r[2]->Token_0;
            &&& calls[0] is PfEnabled
            &&& !read ==> calls.len() == 1
            &&& read ==> calls[1] is LoadStanding && calls.len() >= 3
            &&& read && held ==> calls[2] is LoadRuleset && loaded_at(lockdown_run(tun, server, r), r, 2)
            &&& read && !held ==> calls[2] is EnableCaptureToken && (token is Err ==> calls.len() == 3)
            &&& read && !held && st is Some && token is Ok ==> {
                &&& calls[3] is SaveStanding
                &&& r[3]->Saved_0 is Err ==> calls.len() == 5 && calls[4] == LockdownCallView::DropToken(token->Ok_0)
                &&& r[3]->Saved_0 is Ok ==> calls[4] is LoadRuleset && loaded_at(lockdown_run(tun, server, r), r, 4)
            }
            &&& read && st is None && token is Ok ==> {
                &&& calls[3] is Presence
                &&& calls[4] is ShowFilter
                &&& r[4]->Text_0 is Err ==> calls.len() == 6 && calls[5] == LockdownCallView::DropToken(token->Ok_0)
                &&& r[4]->Text_0 is Ok ==> {
                    &&& calls[5] is ShowTranslation
                    &&& r[5]->Text_0 is Err ==> calls.len() == 7 && calls[6] == LockdownCallView::DropToken(
                        token->Ok_0,
                    )
                    &&& r[5]->Text_0 is Ok ==> {
                        &&& calls[6] is SaveStanding
                        &&& r[6]->Saved_0 is Err ==> calls.len() == 8 && calls[7] == LockdownCallView::DropToken(
                            token->Ok_0,
                        )
                        &&& r[6]->Saved_0 is Ok ==> calls[7] is LoadRuleset && loaded_at(
                            lockdown_run(tun, server, r),
                            r,
                            7,
                        )
                    }
                }
            }
        }),
{
    lemma_answered(tun, server, r);
    assert(r.len() >= 4 ==> r.skip(2).skip(2) =~= r.skip(4));
    assert(r.len() >= 7 ==> r.skip(2).skip(2).skip(3) =~= r.skip(7));
    assert(r.len() > 2 ==> r.skip(2)[0] == r[2]);
    assert(r.len() > 4 ==> r.skip(4)[0] == r[4]);
    assert(r.len() > 7 ==> r.skip(7)[0] == r[7]);
}

/// What a lockdown loads carries the translation rules of the record that is on disk
/// at that point, in every run: of the one that was read, of the one that was written
/// again after a reboot, and of the first one.
pub proof fn a_lockdown_carries_the_recorded_translation(
    tun: Seq<char>,
    server: IpAddr,
    r: LockdownReplies,
    i: int,
)
    requires
        answered(tun, server, r),
        0 <= i < r.len(),
        lockdown_run(tun, server, r).calls[i] is LoadRuleset,
    ensures
        ({
            let calls = lockdown_run(tun, server, r).calls;
            &&& on_disk(calls, r, i) is Some
            &&& calls[i] == LockdownCallView::LoadRuleset(
                lockdown_ruleset(tun, server, on_disk(calls, r, i)->0.nat_snapshot),
            )
        }),
{
    lemma_answered(tun, server, r);
    lemma_calls(tun, server, r);
    assert(r.len() >= 4 ==> r.skip(2).skip(2) =~= r.skip(4));
    assert(r.len() >= 7 ==> r.skip(2).skip(2).skip(3) =~= r.skip(7));
    let calls = lockdown_run(tun, server, r).calls;
    if i == 2 {
        assert(on_disk(calls, r, 2) == r[1]->Standing_0);
    } else if i == 4 {
        assert(calls[3] is SaveStanding);
        assert(on_disk(calls, r, 4) == Some(calls[3]->SaveStanding_0));
    } else {
        assert(i == 7);
        assert(on_disk(calls, r, 7) == Some(calls[6]->SaveStanding_0));
    }
}

/// A record that a lockdown writes holds what undoes it. After a reboot that is what
/// the record held before, with the token that was just taken; the first time it is
/// that token, the translation rules that were printed and, unless the lockdown was
/// already loaded, the filter rules that were printed.
pub proof fn a_lockdown_records_what_undoes_it(tun: Seq<char>, server: IpAddr, r: LockdownReplies, i: int)
    requires
        answered(tun, server, r),
        0 <= i < r.len(),
        lockdown_run(tun, server, r).calls[i] is SaveStanding,
    ensures
        ({
            let st = lockdown_run(tun, server, r).calls[i]->SaveStanding_0;
            &&& st.version == 1
            &&& r[2] == LockdownReplyView::Token(Ok(st.pf_token))
            &&& match r[1]->Standing_0 {
                Some(before) => {
                    &&& i == 3
                    &&& st.main_snapshot == before.main_snapshot
                    &&& st.nat_snapshot == before.nat_snapshot
                    &&& st.main_snapshot_captured == before.main_snapshot_captured
                },
                None => {
                    &&& i == 6
                    &&& r[5] == LockdownReplyView::Text(Ok(st.nat_snapshot))
                    &&& if r[3] == LockdownReplyView::Presence(CoverPresence::Live) {
                        !st.main_snapshot_captured && st.main_snapshot.len() == 0
                    } else {
                        st.main_snapshot_captured && r[4] == LockdownReplyView::Text(Ok(st.main_snapshot))
                    }
                },
            }
        }),
{
    lemma_answered(tun, server, r);
    lemma_calls(tun, server, r);
    assert(r.len() >= 4 ==> r.skip(2).skip(2) =~= r.skip(4));
}

/// Engaging succeeds exactly where it ends in a load that succeeded, and then yields
/// the token that the record on disk names, which is the one to drop later.
pub proof fn an_engaged_lockdown_is_loaded_and_recorded(tun: Seq<char>, server: IpAddr, r: LockdownReplies)
    requires
        answered(tun, server, r),
    ensures
        ({
            let run = lockdown_run(tun, server, r);
            let n = run.calls.len() as int;
            &&& n > 0
            &&& run.result is Ok <==> run.calls[n - 1] is LoadRuleset && r[n - 1] is Done && r[n - 1]->Done_0 is Ok
            &&& run.result matches Ok(token) ==> on_disk(run.calls, r, n) matches Some(st) && st.pf_token == token
            &&& run.calls[n - 1] is LoadRuleset ==> run.result is Ok
        }),
{
    lemma_answered(tun, server, r);
    lemma_calls(tun, server, r);
    assert(r.len() >= 4 ==> r.skip(2).skip(2) =~= r.skip(4));
    assert(r.len() >= 7 ==> r.skip(2).skip(2).skip(3) =~= r.skip(7));
    let run = lockdown_run(tun, server, r);
    let calls = run.calls;
    let n = calls.len() as int;
    if run.result is Ok {
        assert(on_disk(calls, r, n) == on_disk(calls, r, n - 1));
        if n == 3 {
            assert(on_disk(calls, r, 2) == r[1]->Standing_0);
        } else if n == 5 {
            assert(on_disk(calls, r, 4) == Some(calls[3]->SaveStanding_0));
        } else {
            assert(n == 8);
            assert(on_disk(calls, r, 7) == Some(calls[6]->SaveStanding_0));
        }
    }
}

/// A step of engaging is taken only where what it rests on is there: a record is read
/// only once the packet filter answered; a reference is taken only where none is
/// held; the host's rules are printed only where no record has them, and before the
/// record is written; nothing is loaded over a record that could not be written; and
/// only a load that failed takes the lockdown down.
pub proof fn what_each_step_of_a_lockdown_rests_on(tun: Seq<char>, server: IpAddr, r: LockdownReplies, i: int)
    requires
        answered(tun, server, r),
        0 <= i < r.len(),
    ensures
        ({
            let calls = lockdown_run(tun, server, r).calls;
            match calls[i] {
                LockdownCallView::PfEnabled => i == 0,
                LockdownCallView::LoadStanding => i == 1 && r[0]->Enabled_0 is Ok,
                LockdownCallView::EnableCaptureToken => i == 2 && (r[1] == LockdownReplyView::Standing(None) || r[0]
                    == LockdownReplyView::Enabled(Ok(false))),
                LockdownCallView::Presence => i == 3 && r[1] == LockdownReplyView::Standing(None) && r[2]->Token_0 is Ok,
                LockdownCallView::ShowFilter => i == 4 && calls[3] is Presence,
                LockdownCallView::ShowTranslation => i == 5 && calls[4] is ShowFilter && r[4]->Text_0 is Ok,
                LockdownCallView::SaveStanding(_) => r[2]->Token_0 is Ok && if r[1]->Standing_0 is None {
                    i == 6 && calls[5] is ShowTranslation && r[5]->Text_0 is Ok
                } else {
                    i == 3 && r[0] == LockdownReplyView::Enabled(Ok(false))
                },
                LockdownCallView::LoadRuleset(_) => if i == 2 {
                    r[0] == LockdownReplyView::Enabled(Ok(true)) && r[1]->Standing_0 is Some
                } else {
                    calls[i - 1] is SaveStanding && r[i - 1] is Saved && r[i - 1]->Saved_0 is Ok
                },
                LockdownCallView::DropToken(token) => {
                    &&& i == r.len() - 1
                    &&& r[2] == LockdownReplyView::Token(Ok(token))
                    &&& (r[i - 1] is Saved && r[i - 1]->Saved_0 is Err) || (r[i - 1] is Text && r[i - 1]->Text_0 is Err)
                },
                LockdownCallView::Disengage => {
                    &&& i == r.len() - 1
                    &&& calls[i - 1] is LoadRuleset
                    &&& r[i - 1] is Done && r[i - 1]->Done_0 is Err
                },
            }
        }),
{
    lemma_answered(tun, server, r);
    lemma_calls(tun, server, r);
    assert(r.len() >= 4 ==> r.skip(2).skip(2) =~= r.skip(4));
    assert(r.len() >= 7 ==> r.skip(2).skip(2).skip(3) =~= r.skip(7));
    assert(r.len() <= 9);
    assert(i == 0 || i == 1 || i == 2 || i == 3 || i == 4 || i == 5 || i == 6 || i == 7 || i == 8);
}

/// A lockdown that does not come about says why in the words of the step that failed.
pub proof fn a_failed_lockdown_says_what_failed(tun: Seq<char>, server: IpAddr, r: LockdownReplies)
    requires
        answered(tun, server, r),
    ensures
        ({
            let run = lockdown_run(tun, server, r);
            let n = run.calls.len() as int;
            run.result matches Err(e) ==> match run.calls[n - 1] {
                LockdownCallView::DropToken(_) | LockdownCallView::Disengage => match r[n - 2] {
                    LockdownReplyView::Text(Err(x)) => e == x,
                    LockdownReplyView::Done(Err(x)) => e == x,
                    LockdownReplyView::Saved(Err(words)) => e == RoutingErrorView::RouteSetup(
                        (if r[1]->Standing_0 is Some {
                            "failed to re-persist lockdown-pf-state: "@
                        } else {
                            "failed to persist lockdown-pf-state: "@
                        }) + words,
                    ),
                    _ => false,
                },
                _ => r[n - 1] == LockdownReplyView::Enabled(Err(e)) || r[n - 1] == LockdownReplyView::Token(Err(e)),
            }
        }),
{
    lemma_answered(tun, server, r);
    lemma_calls(tun, server, r);
    assert(r.len() >= 4 ==> r.skip(2).skip(2) =~= r.skip(4));
    assert(r.len() >= 7 ==> r.skip(2).skip(2).skip(3) =~= r.skip(7));
}

} // verus!
