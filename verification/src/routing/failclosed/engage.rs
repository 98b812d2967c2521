//! Engaging the transient cover.
//!
//! Enable the packet filter, record that, load the ruleset, purge the state table.
//! The record is written before anything blocks, so that a crash at any point
//! leaves the next start able to take the cover down; what failed is unwound.

use vstd::prelude::*;
use crate::error::{outcome_view, RoutingError, RoutingErrorView};
use crate::ip::IpAddr;
use crate::routing::failclosed::failclosed_state::{FailClosedState, FailClosedStateView, SCHEMA_VERSION};
use crate::routing::failclosed::pf_output::text_view;
use crate::routing::failclosed::pf_rules::{build_pf_ruleset, transient_ruleset};
use crate::routing::failclosed::release::{warning_view, Replies};

verus! {

/// Which cover.
#[derive(Debug, Clone, Copy, PartialEq, Eq, Structural)]
pub enum CoverKind {
    /// Blocks until the tunnel is up.
    Transient,
    /// Blocks around the tunnel.
    Lockdown,
}

/// Whether engaging the cover purges the packet filter's state table. The purge is
/// host-wide: it is what makes the transient cover hold for flows that predate it,
/// and it would cut the tunnel that a lockdown is engaged around.
pub fn purges_state(kind: CoverKind) -> (r: bool)
    ensures
        r == (kind is Transient),
{
    match kind {
        CoverKind::Transient => true,
        CoverKind::Lockdown => false,
    }
}

/// One step of loading a cover's ruleset.
#[derive(Debug, Clone, PartialEq, Eq)]
pub enum LoadCall {
    LoadRuleset(String),
    FlushStates,
}

/// [`LoadCall`] with its text as characters.
pub enum LoadCallView {
    LoadRuleset(Seq<char>),
    FlushStates,
}

impl View for LoadCall {
    type V = LoadCallView;

    open spec fn view(&self) -> LoadCallView {
        match self {
            LoadCall::LoadRuleset(text) => LoadCallView::LoadRuleset(text@),
            LoadCall::FlushStates => LoadCallView::FlushStates,
        }
    }
}

/// The calls that load a cover's ruleset, where `r` are their replies: the purge
/// comes after a load that took effect, and after no other.
pub open spec fn cover_load_calls(kind: CoverKind, ruleset: Seq<char>, r: Replies) -> Seq<LoadCallView> {
    if kind is Transient && r[0] is Ok {
        seq![LoadCallView::LoadRuleset(ruleset), LoadCallView::FlushStates]
    } else {
        seq![LoadCallView::LoadRuleset(ruleset)]
    }
}

/// A cover's ruleset being loaded.
pub struct CoverLoad {
    kind: CoverKind,
    ruleset: String,
    loaded: Option<Result<(), RoutingError>>,
    flushed: bool,
    replies: Ghost<Replies>,
}

impl CoverLoad {
    pub closed spec fn kind(self) -> CoverKind {
        self.kind
    }

    pub closed spec fn ruleset(self) -> Seq<char> {
        self.ruleset@
    }

    pub closed spec fn replies(self) -> Replies {
        self.replies@
    }

    pub open spec fn calls(self) -> Seq<LoadCallView> {
        cover_load_calls(self.kind(), self.ruleset(), self.replies())
    }

    /// Every call has been made.
    pub open spec fn over(self) -> bool {
        self.replies().len() == self.calls().len()
    }

    pub closed spec fn wf(self) -> bool {
        let r = self.replies@;
        match self.loaded {
            None => r.len() == 0 && !self.flushed,
            Some(outcome) => {
                &&& r.len() == if self.flushed {
                    2nat
                } else {
                    1nat
                }
                &&& r[0] == outcome_view(outcome)
                &&& self.flushed ==> self.kind is Transient && outcome is Ok
            },
        }
    }

    /// The call to make now, `None` when loading is over.
    pub fn next(&self) -> (r: Option<LoadCall>)
        requires
            self.wf(),
        ensures
            match r {
                Some(call) => self.replies().len() < self.calls().len() && call@
                    == self.calls()[self.replies().len() as int],
                None => self.over(),
            },
    {
        match &self.loaded {
            None => Some(LoadCall::LoadRuleset(self.ruleset.clone())),
            Some(Ok(())) => {
                if purges_state(self.kind) && !self.flushed {
                    Some(LoadCall::FlushStates)
                } else {
                    None
                }
            }
            Some(Err(_)) => None,
        }
    }

    /// Take what became of the call that [`CoverLoad::next`] handed out.
    pub fn feed(self, reply: Result<(), RoutingError>) -> (m: Self)
        requires
            self.wf(),
            !self.over(),
        ensures
            m.wf(),
            m.kind() == self.kind(),
            m.ruleset() == self.ruleset(),
            m.replies() == self.replies().push(outcome_view(reply)),
    {
        let ghost r = self.replies@.push(outcome_view(reply));
        match self.loaded {
            None => CoverLoad {
                kind: self.kind,
                ruleset: self.ruleset,
                loaded: Some(reply),
                flushed: false,
                replies: Ghost(r),
            },
            Some(outcome) => CoverLoad {
                kind: self.kind,
                ruleset: self.ruleset,
                loaded: Some(outcome),
                flushed: true,
                replies: Ghost(r),
            },
        }
    }

    /// Whether the ruleset was loaded. A purge that failed does not take a loaded,
    /// blocking ruleset back.
    pub fn finish(self) -> (r: Result<(), RoutingError>)
        requires
            self.wf(),
            self.over(),
        ensures
            outcome_view(r) == self.replies()[0],
    {
        match self.loaded {
            Some(outcome) => outcome,
            None => Ok(()),
        }
    }
}

/// Start loading a cover's ruleset.
pub fn load_cover_ruleset(kind: CoverKind, ruleset: String) -> (m: CoverLoad)
    ensures
        m.wf(),
        m.kind() == kind,
        m.ruleset() == ruleset@,
        m.replies().len() == 0,
{
    CoverLoad { kind, ruleset, loaded: None, flushed: false, replies: Ghost(Seq::empty()) }
}

/// One step of engaging the transient cover.
#[derive(Debug, Clone, PartialEq, Eq)]
pub enum EngageCall {
    /// Ask whether the packet filter is enabled.
    PfEnabled,
    /// Enable it, taking a reference.
    EnableCaptureToken,
    /// Write the record.
    SaveTransient(FailClosedState),
    LoadRuleset(String),
    FlushStates,
    /// Drop the reference again.
    DropToken(String),
    /// Take the cover with this token down again.
    TransientRestore(String),
}

/// [`EngageCall`] with its text as characters.
pub enum EngageCallView {
    PfEnabled,
    EnableCaptureToken,
    SaveTransient(FailClosedStateView),
    LoadRuleset(Seq<char>),
    FlushStates,
    DropToken(Seq<char>),
    TransientRestore(Seq<char>),
}

impl View for EngageCall {
    type V = EngageCallView;

    open spec fn view(&self) -> EngageCallView {
        match self {
            EngageCall::PfEnabled => EngageCallView::PfEnabled,
            EngageCall::EnableCaptureToken => EngageCallView::EnableCaptureToken,
            EngageCall::SaveTransient(st) => EngageCallView::SaveTransient(st@),
            EngageCall::LoadRuleset(text) => EngageCallView::LoadRuleset(text@),
            EngageCall::FlushStates => EngageCallView::FlushStates,
            EngageCall::DropToken(token) => EngageCallView::DropToken(token@),
            EngageCall::TransientRestore(token) => EngageCallView::TransientRestore(token@),
        }
    }
}

/// What became of one step.
#[derive(Debug, PartialEq, Eq)]
pub enum EngageReply {
    /// To [`EngageCall::PfEnabled`].
    Enabled(Result<bool, RoutingError>),
    /// To [`EngageCall::EnableCaptureToken`].
    Token(Result<String, RoutingError>),
    /// To every other call.
    Done(Result<(), RoutingError>),
}

/// [`EngageReply`] with its text as characters.
pub enum EngageReplyView {
    Enabled(Result<bool, RoutingErrorView>),
    Token(Result<Seq<char>, RoutingErrorView>),
    Done(Result<(), RoutingErrorView>),
}

impl View for EngageReply {
    type V = EngageReplyView;

    open spec fn view(&self) -> EngageReplyView {
        match self {
            EngageReply::Enabled(r) => EngageReplyView::Enabled(
                match *r {
                    Ok(enabled) => Ok(enabled),
                    Err(e) => Err(e@),
                },
            ),
            EngageReply::Token(r) => EngageReplyView::Token(text_view(*r)),
            EngageReply::Done(r) => EngageReplyView::Done(outcome_view(*r)),
        }
    }
}

impl EngageReplyView {
    pub open spec fn failed(self) -> bool {
        self matches EngageReplyView::Done(Err(_))
    }

    /// The reply is of the kind that the call asks for.
    pub open spec fn fits(self, call: EngageCallView) -> bool {
        match call {
            EngageCallView::PfEnabled => self is Enabled,
            EngageCallView::EnableCaptureToken => self is Token,
            _ => self is Done,
        }
    }
}

/// The record of the cover: the token that was taken, and whether the packet
/// filter was enabled before, unknown where that could not be read.
pub open spec fn engage_record(r: Seq<EngageReplyView>, token: Seq<char>) -> FailClosedStateView {
    FailClosedStateView {
        version: SCHEMA_VERSION,
        pf_token: token,
        pf_was_enabled: match r[0] {
            EngageReplyView::Enabled(Ok(enabled)) => Some(enabled),
            _ => None,
        },
    }
}

/// The calls that engage the transient cover, where `r` are their replies.
pub open spec fn engage_calls(ruleset: Seq<char>, r: Seq<EngageReplyView>) -> Seq<EngageCallView> {
    let start = seq![EngageCallView::PfEnabled, EngageCallView::EnableCaptureToken];
    match r[1] {
        EngageReplyView::Token(Ok(token)) => start + seq![EngageCallView::SaveTransient(engage_record(r, token))] + (
        if r[2].failed() {
            seq![EngageCallView::DropToken(token)]
        } else {
            seq![EngageCallView::LoadRuleset(ruleset)] + (if r[3].failed() {
                seq![EngageCallView::TransientRestore(token)]
            } else {
                seq![EngageCallView::FlushStates]
            })
        }),
        _ => start,
    }
}

/// The outcome of engaging: the token, or the error of the step that failed. What
/// became of the unwinding does not show.
pub open spec fn engage_result(r: Seq<EngageReplyView>) -> Result<Seq<char>, RoutingErrorView> {
    match (r[1], r[2], r[3]) {
        (EngageReplyView::Token(Err(e)), _, _) => Err(e),
        (_, EngageReplyView::Done(Err(e)), _) => Err(e),
        (_, _, EngageReplyView::Done(Err(e))) => Err(e),
        (EngageReplyView::Token(Ok(token)), _, _) => Ok(token),
        _ => Ok(seq![]),
    }
}

/// What the log says where a call fails and its failure does not show in the
/// outcome.
pub open spec fn engage_warning(call: EngageCallView) -> Option<Seq<char>> {
    match call {
        EngageCallView::PfEnabled => Some(
            "could not read whether pf was already enabled; recording it as unknown and continuing the engage — this read is diagnostic and the cover does not depend on it"@,
        ),
        EngageCallView::FlushStates => Some(
            "pf state purge failed after the cover ruleset loaded; flows established before this engage may keep flowing past it"@,
        ),
        EngageCallView::DropToken(_) => Some("pfctl -X failed unwinding a failed transient engage"@),
        _ => None,
    }
}

enum EngageAt {
    Query,
    Enable(Option<bool>),
    Save(FailClosedState),
    Load(String, CoverLoad),
    Unwind(String, RoutingError),
    Restore(String, RoutingError),
    Over(Result<String, RoutingError>),
}

/// The transient cover being engaged.
pub struct Engage {
    ruleset: String,
    at: EngageAt,
    replies: Ghost<Seq<EngageReplyView>>,
}

impl Engage {
    pub closed spec fn ruleset(self) -> Seq<char> {
        self.ruleset@
    }

    pub closed spec fn replies(self) -> Seq<EngageReplyView> {
        self.replies@
    }

    pub open spec fn calls(self) -> Seq<EngageCallView> {
        engage_calls(self.ruleset(), self.replies())
    }

    /// Every call has been made.
    pub open spec fn over(self) -> bool {
        self.replies().len() == self.calls().len()
    }

    /// The call that is to be made now.
    pub open spec fn current(self) -> EngageCallView {
        self.calls()[self.replies().len() as int]
    }

    pub closed spec fn wf(self) -> bool {
        let r = self.replies@;
        match self.at {
            EngageAt::Query => r.len() == 0,
            EngageAt::Enable(was) => r.len() == 1 && engage_record(r, seq![]).pf_was_enabled == was,
            EngageAt::Save(st) => {
                &&& r.len() == 2
                &&& r[1] == EngageReplyView::Token(Ok(st.pf_token@))
                &&& st@ == engage_record(r, st.pf_token@)
            },
            EngageAt::Load(token, load) => {
                &&& r.len() == 3 + load.replies().len()
                &&& r[1] == EngageReplyView::Token(Ok(token@))
                &&& r[2] == EngageReplyView::Done(Ok(()))
                &&& load.replies().len() > 0 ==> r[3] == EngageReplyView::Done(load.replies()[0])
                &&& load.wf() && !load.over()
                &&& load.kind() is Transient
                &&& load.ruleset() == self.ruleset@
            },
            EngageAt::Unwind(token, e) => {
                &&& r.len() == 3
                &&& r[1] == EngageReplyView::Token(Ok(token@))
                &&& r[2] == EngageReplyView::Done(Err(e@))
            },
            EngageAt::Restore(token, e) => {
                &&& r.len() == 4
                &&& r[1] == EngageReplyView::Token(Ok(token@))
                &&& r[2] == EngageReplyView::Done(Ok(()))
                &&& r[3] == EngageReplyView::Done(Err(e@))
            },
            EngageAt::Over(result) => {
                &&& r.len() == engage_calls(self.ruleset@, r).len()
                &&& text_view(result) == engage_result(r)
            },
        }
    }

    /// The call to make now, `None` when engaging is over.
    pub fn next(&self) -> (r: Option<EngageCall>)
        requires
            self.wf(),
        ensures
            match r {
                Some(call) => self.replies().len() < self.calls().len() && call@ == self.current(),
                None => self.over(),
            },
    {
        match &self.at {
            EngageAt::Query => Some(EngageCall::PfEnabled),
            EngageAt::Enable(_) => Some(EngageCall::EnableCaptureToken),
            EngageAt::Save(st) => Some(
                EngageCall::SaveTransient(
                    FailClosedState {
                        version: st.version,
                        pf_token: st.pf_token.clone(),
                        pf_was_enabled: st.pf_was_enabled,
                    },
                ),
            ),
            EngageAt::Load(_, load) => match load.next() {
                Some(LoadCall::LoadRuleset(text)) => Some(EngageCall::LoadRuleset(text)),
                Some(LoadCall::FlushStates) => Some(EngageCall::FlushStates),
                None => None,
            },
            EngageAt::Unwind(token, _) => Some(EngageCall::DropToken(token.clone())),
            EngageAt::Restore(token, _) => Some(EngageCall::TransientRestore(token.clone())),
            EngageAt::Over(_) => None,
        }
    }

    /// What to log where the call that [`Engage::next`] handed out fails and its
    /// failure does not show in the outcome.
    pub fn warning(&self) -> (w: Option<&'static str>)
        requires
            self.wf(),
            !self.over(),
        ensures
            warning_view(w) == engage_warning(self.current()),
    {
        match &self.at {
            EngageAt::Query => Some(
                "could not read whether pf was already enabled; recording it as unknown and continuing the engage — this read is diagnostic and the cover does not depend on it",
            ),
            EngageAt::Load(_, load) => match load.next() {
                Some(LoadCall::FlushStates) => Some(
                    "pf state purge failed after the cover ruleset loaded; flows established before this engage may keep flowing past it",
                ),
                _ => None,
            },
            EngageAt::Unwind(_, _) => Some("pfctl -X failed unwinding a failed transient engage"),
            _ => None,
        }
    }

    /// Take what became of the call that [`Engage::next`] handed out.
    pub fn feed(self, reply: EngageReply) -> (m: Self)
        requires
            self.wf(),
            !self.over(),
            reply@.fits(self.current()),
        ensures
            m.wf(),
            m.ruleset() == self.ruleset(),
            m.replies() == self.replies().push(reply@),
    {
        let ghost r = self.replies@.push(reply@);
        let at = match self.at {
            EngageAt::Query => match reply {
                EngageReply::Enabled(Ok(enabled)) => EngageAt::Enable(Some(enabled)),
                _ => EngageAt::Enable(None),
            },
            EngageAt::Enable(was) => match reply {
                EngageReply::Token(Ok(token)) => EngageAt::Save(
                    FailClosedState { version: SCHEMA_VERSION, pf_token: token, pf_was_enabled: was },
                ),
                EngageReply::Token(Err(e)) => EngageAt::Over(Err(e)),
                _ => EngageAt::Query,
            },
            EngageAt::Save(st) => match reply {
                EngageReply::Done(Ok(())) => EngageAt::Load(
                    st.pf_token,
                    load_cover_ruleset(CoverKind::Transient, self.ruleset.clone()),
                ),
                EngageReply::Done(Err(e)) => EngageAt::Unwind(st.pf_token, e),
                _ => EngageAt::Query,
            },
            EngageAt::Load(token, load) => match reply {
                EngageReply::Done(outcome) => {
                    let load = load.feed(outcome);
                    if load.next().is_some() {
                        EngageAt::Load(token, load)
                    } else {
                        match load.finish() {
                            Ok(()) => EngageAt::Over(Ok(token)),
                            Err(e) => EngageAt::Restore(token, e),
                        }
                    }
                }
                _ => EngageAt::Query,
            },
            EngageAt::Unwind(_, e) => EngageAt::Over(Err(e)),
            EngageAt::Restore(_, e) => EngageAt::Over(Err(e)),
            EngageAt::Over(result) => EngageAt::Over(result),
        };
        Engage { ruleset: self.ruleset, at, replies: Ghost(r) }
    }

    /// The outcome once engaging is over: the cover's token, or why there is no
    /// cover.
    pub fn finish(self) -> (r: Result<String, RoutingError>)
        requires
            self.wf(),
            self.over(),
        ensures
            text_view(r) == engage_result(self.replies()),
    {
        match self.at {
            EngageAt::Over(result) => result,
            _ => Ok(String::new()),
        }
    }
}

/// Start engaging the transient cover: everything is blocked but loopback, the
/// server and, where there is one, the resolver.
pub fn engage_with(server_ip: IpAddr, resolver_ip: Option<IpAddr>) -> (m: Engage)
    ensures
        m.wf(),
        m.ruleset() == transient_ruleset(server_ip, resolver_ip),
        m.replies().len() == 0,
{
    Engage { ruleset: build_pf_ruleset(server_ip, resolver_ip), at: EngageAt::Query, replies: Ghost(Seq::empty()) }
}

/// Nothing is loaded unless the record was written before, for the token that is
/// held.
pub proof fn the_record_precedes_the_ruleset(ruleset: Seq<char>, r: Seq<EngageReplyView>, i: int)
    requires
        0 <= i < engage_calls(ruleset, r).len(),
        engage_calls(ruleset, r)[i] is LoadRuleset,
    ensures
        i == 3,
        engage_calls(ruleset, r)[2] is SaveTransient,
        !r[2].failed(),
{
}

/// The state table is purged only after the ruleset took effect.
pub proof fn the_purge_follows_a_load(ruleset: Seq<char>, r: Seq<EngageReplyView>, i: int)
    requires
        0 <= i < engage_calls(ruleset, r).len(),
        engage_calls(ruleset, r)[i] is FlushStates,
    ensures
        0 < i,
        engage_calls(ruleset, r)[i - 1] is LoadRuleset,
        !r[i - 1].failed(),
{
}

/// The token that was taken is given back, by dropping it or by taking the cover
/// down, exactly when engaging fails after it was taken; a failure to take one
/// unwinds nothing.
pub proof fn a_failed_engage_gives_its_token_back(ruleset: Seq<char>, r: Seq<EngageReplyView>)
    requires
        r.len() == engage_calls(ruleset, r).len(),
        forall|i: int| 0 <= i < r.len() ==> (#[trigger] r[i]).fits(engage_calls(ruleset, r)[i]),
    ensures
        match r[1] {
            EngageReplyView::Token(Ok(token)) => engage_result(r) is Err <==> {
                ||| engage_calls(ruleset, r).last() == EngageCallView::DropToken(token)
                ||| engage_calls(ruleset, r).last() == EngageCallView::TransientRestore(token)
            },
            _ => engage_calls(ruleset, r).len() == 2 && engage_result(r) is Err,
        },
{
    assert(r[0].fits(engage_calls(ruleset, r)[0]));
    assert(r[1].fits(engage_calls(ruleset, r)[1]));
    if r.len() > 2 {
        assert(r[2].fits(engage_calls(ruleset, r)[2]));
    }
    if r.len() > 3 {
        assert(r[3].fits(engage_calls(ruleset, r)[3]));
    }
}

/// Whether the packet filter was enabled before is for the record alone: a failed
/// read neither ends the engaging nor changes any call but the record.
pub proof fn the_enabled_read_is_diagnostic(
    ruleset: Seq<char>,
    r: Seq<EngageReplyView>,
    other: EngageReplyView,
)
    requires
        r.len() == engage_calls(ruleset, r).len(),
        r[1] is Token,
    ensures
        ({
            let changed = engage_calls(ruleset, r.update(0, other));
            let calls = engage_calls(ruleset, r);
            &&& changed.len() == calls.len()
            &&& forall|i: int| 0 <= i < calls.len() && i != 2 ==> changed[i] == calls[i]
            &&& engage_result(r.update(0, other)) == engage_result(r)
        }),
{
    let s = r.update(0, other);
    assert(forall|i: int| 1 <= i < r.len() ==> s[i] == r[i]);
    assert(r[1] == s[1]);
}

/// A lockdown's ruleset is loaded without a purge, whatever became of the load.
pub proof fn a_lockdown_never_purges(ruleset: Seq<char>, r: Replies)
    ensures
        cover_load_calls(CoverKind::Lockdown, ruleset, r) == seq![LoadCallView::LoadRuleset(ruleset)],
{
}

} // verus!
