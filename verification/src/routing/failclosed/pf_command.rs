//! The control commands behind the calls on the packet filter, and what their
//! outputs answer.

use vstd::pervasive::unreached;
use vstd::prelude::*;
use crate::error::{outcome_view, CommandOutput, RoutingError, RoutingErrorView};
use crate::routing::commands::words;
use crate::routing::failclosed::engage::{EngageCall, EngageCallView, EngageReply, EngageReplyView};
use crate::routing::failclosed::lockdown::{LockdownCall, LockdownCallView, LockdownReply, LockdownReplyView};
use crate::routing::failclosed::pf_output::{
    any_says_enabled, enable_pf_capture_token, enable_token, parse_pf_enabled, pfctl, pfctl_cmd, pfctl_status,
    pfctl_stdout, printed, PFCONF, PFCTL,
};
use crate::routing::failclosed::release::{PfCall, PfCallView};
use crate::routing::state_file::{removal_outcome, tolerate_absence, RemoveFailure};

verus! {

/// A control command to run.
#[derive(Debug, Clone, PartialEq, Eq)]
pub struct PfCommand {
    pub argv: Vec<String>,
    /// What the command reads.
    pub stdin: Option<String>,
}

/// [`PfCommand`] with its words as characters.
pub struct PfCommandView {
    pub argv: Seq<Seq<char>>,
    pub stdin: Option<Seq<char>>,
}

impl View for PfCommand {
    type V = PfCommandView;

    open spec fn view(&self) -> PfCommandView {
        PfCommandView {
            argv: words(self.argv@),
            stdin: match self.stdin {
                Some(text) => Some(text@),
                None => None,
            },
        }
    }
}

pub open spec fn command_view(c: Option<PfCommand>) -> Option<PfCommandView> {
    match c {
        Some(c) => Some(c@),
        None => None,
    }
}

/// The control command with these arguments.
pub open spec fn control(args: Seq<Seq<char>>, stdin: Option<Seq<char>>) -> PfCommandView {
    PfCommandView { argv: seq![PFCTL@] + args, stdin }
}

fn control_command(args: &[&str], stdin: Option<String>) -> (r: PfCommand)
    ensures
        r@ == control(
            args@.map_values(|a: &str| a@),
            match stdin {
                Some(text) => Some(text@),
                None => None,
            },
        ),
{
    PfCommand { argv: pfctl_cmd(args), stdin }
}

fn one_arg(a: &str) -> (r: PfCommand)
    ensures
        r@ == control(seq![a@], None),
{
    let args: [&str; 1] = [a];
    assert(args@.map_values(|x: &str| x@) =~= seq![a@]);
    control_command(&args, None)
}

fn two_args(a: &str, b: &str, stdin: Option<String>) -> (r: PfCommand)
    ensures
        r@ == control(
            seq![a@, b@],
            match stdin {
                Some(text) => Some(text@),
                None => None,
            },
        ),
{
    let args: [&str; 2] = [a, b];
    assert(args@.map_values(|x: &str| x@) =~= seq![a@, b@]);
    control_command(&args, stdin)
}

/// What a run printed: an error where it could not be started or did not succeed.
pub open spec fn answer(spawned: Result<CommandOutput, String>, what: Seq<char>) -> Result<
    Seq<char>,
    RoutingErrorView,
> {
    match spawned {
        Err(e) => Err(RoutingErrorView::RouteSetup("pfctl spawn failed: "@ + e@)),
        Ok(out) => printed(Ok::<CommandOutput, RoutingError>(out), what),
    }
}

/// Whether a run succeeded.
pub open spec fn verdict(spawned: Result<CommandOutput, String>, what: Seq<char>) -> Result<(), RoutingErrorView> {
    match answer(spawned, what) {
        Ok(_) => Ok(()),
        Err(e) => Err(e),
    }
}

fn run_status(spawned: Result<CommandOutput, String>, what: &str) -> (r: Result<(), RoutingError>)
    ensures
        outcome_view(r) == verdict(spawned, what@),
{
    pfctl_status(pfctl(spawned), what)
}

fn run_stdout(spawned: Result<CommandOutput, String>, what: &str) -> (r: Result<String, RoutingError>)
    ensures
        crate::routing::failclosed::pf_output::text_view(r) == answer(spawned, what@),
{
    pfctl_stdout(pfctl(spawned), what)
}

/// Whether the packet filter said that it is enabled.
pub open spec fn enabled_answer(spawned: Result<CommandOutput, String>) -> Result<bool, RoutingErrorView> {
    match answer(spawned, "pfctl -s info"@) {
        Ok(text) => Ok(any_says_enabled(text)),
        Err(e) => Err(e),
    }
}

fn run_enabled(spawned: Result<CommandOutput, String>) -> (r: Result<bool, RoutingError>)
    ensures
        match enabled_answer(spawned) {
            Ok(enabled) => r == Ok::<bool, RoutingError>(enabled),
            Err(e) => r matches Err(x) && x@ == e,
        },
{
    match run_stdout(spawned, "pfctl -s info") {
        Ok(text) => Ok(parse_pf_enabled(text.as_str())),
        Err(e) => Err(e),
    }
}

/// The token that enabling the packet filter took.
pub open spec fn token_answer(spawned: Result<CommandOutput, String>) -> Result<Seq<char>, RoutingErrorView> {
    match spawned {
        Err(e) => Err(RoutingErrorView::RouteSetup("pfctl spawn failed: "@ + e@)),
        Ok(out) => enable_token(Ok::<CommandOutput, RoutingError>(out)),
    }
}

fn run_token(spawned: Result<CommandOutput, String>) -> (r: Result<String, RoutingError>)
    ensures
        crate::routing::failclosed::pf_output::text_view(r) == token_answer(spawned),
{
    enable_pf_capture_token(pfctl(spawned))
}

/// The command that lists the rule labels.
pub fn labels_command() -> (r: PfCommand)
    ensures
        r@ == control(seq!["-s"@, "labels"@], None),
{
    two_args("-s", "labels", None)
}

fn prefixed_error(prefix: &str, e: String) -> (r: RoutingError)
    ensures
        r@ == RoutingErrorView::RouteSetup(prefix@ + e@),
{
    let mut text = prefix.to_owned();
    text.append(e.as_str());
    RoutingError::RouteSetup(text)
}

impl PfCallView {
    /// The control command behind the call; clearing a record has none.
    pub open spec fn control_command(self) -> Option<PfCommandView> {
        match self {
            PfCallView::ReloadDefault => Some(control(seq!["-f"@, PFCONF@], None)),
            PfCallView::LoadRuleset(text) => Some(control(seq!["-f"@, "-"@], Some(text))),
            PfCallView::DropToken(token) => Some(control(seq!["-X"@, token], None)),
            PfCallView::ClearTransient | PfCallView::ClearStanding => None,
        }
    }

    /// What the call is named in an error.
    pub open spec fn named(self) -> Seq<char> {
        match self {
            PfCallView::ReloadDefault => "pf default-ruleset reload"@,
            PfCallView::LoadRuleset(_) => "pf ruleset load"@,
            PfCallView::DropToken(_) => "pfctl -X"@,
            PfCallView::ClearTransient => "failclosed-state clear"@,
            PfCallView::ClearStanding => "lockdown-pf-state clear"@,
        }
    }
}

impl PfCall {
    /// The control command to run, `None` where a record is to be removed instead.
    pub fn command(&self) -> (r: Option<PfCommand>)
        ensures
            command_view(r) == self@.control_command(),
    {
        match self {
            PfCall::ReloadDefault => Some(two_args("-f", PFCONF, None)),
            PfCall::LoadRuleset(text) => Some(two_args("-f", "-", Some(text.clone()))),
            PfCall::DropToken(token) => Some(two_args("-X", token.as_str(), None)),
            PfCall::ClearTransient => None,
            PfCall::ClearStanding => None,
        }
    }

    /// The reply to a call whose control command was run.
    pub fn ran(&self, spawned: Result<CommandOutput, String>) -> (r: Result<(), RoutingError>)
        requires
            self@.control_command() is Some,
        ensures
            outcome_view(r) == verdict(spawned, self@.named()),
    {
        match self {
            PfCall::ReloadDefault => run_status(spawned, "pf default-ruleset reload"),
            PfCall::LoadRuleset(_) => run_status(spawned, "pf ruleset load"),
            PfCall::DropToken(_) => run_status(spawned, "pfctl -X"),
            PfCall::ClearTransient | PfCall::ClearStanding => unreached(),
        }
    }

    /// The reply to a call that removes a record. That it was not there is no
    /// failure.
    pub fn cleared(&self, removed: Result<(), RemoveFailure>) -> (r: Result<(), RoutingError>)
        requires
            self@.control_command() is None,
        ensures
            match removal_outcome(removed) {
                Ok(()) => r is Ok,
                Err(e) => r matches Err(x) && x@ == RoutingErrorView::RouteSetup(self@.named() + " failed: "@ + e@),
            },
    {
        let mut text = match self {
            PfCall::ClearTransient => "failclosed-state clear".to_owned(),
            PfCall::ClearStanding => "lockdown-pf-state clear".to_owned(),
            PfCall::ReloadDefault | PfCall::LoadRuleset(_) | PfCall::DropToken(_) => unreached(),
        };
        match tolerate_absence(removed) {
            Ok(()) => Ok(()),
            Err(e) => {
                text.append(" failed: ");
                Err(prefixed_error(text.as_str(), e))
            }
        }
    }
}

impl EngageCallView {
    /// The control command behind the call, where there is one.
    pub open spec fn control_command(self) -> Option<PfCommandView> {
        match self {
            EngageCallView::PfEnabled => Some(control(seq!["-s"@, "info"@], None)),
            EngageCallView::EnableCaptureToken => Some(control(seq!["-E"@], None)),
            EngageCallView::LoadRuleset(text) => Some(control(seq!["-f"@, "-"@], Some(text))),
            EngageCallView::FlushStates => Some(control(seq!["-F"@, "states"@], None)),
            EngageCallView::DropToken(token) => Some(control(seq!["-X"@, token], None)),
            EngageCallView::SaveTransient(_) | EngageCallView::TransientRestore(_) => None,
        }
    }

    /// What the call's command answers; a call without one has no such answer.
    pub open spec fn answered(self, spawned: Result<CommandOutput, String>) -> Option<EngageReplyView> {
        match self {
            EngageCallView::PfEnabled => Some(EngageReplyView::Enabled(enabled_answer(spawned))),
            EngageCallView::EnableCaptureToken => Some(EngageReplyView::Token(token_answer(spawned))),
            EngageCallView::LoadRuleset(_) => Some(EngageReplyView::Done(verdict(spawned, "pfctl load"@))),
            EngageCallView::FlushStates => Some(EngageReplyView::Done(verdict(spawned, "pfctl -F states"@))),
            EngageCallView::DropToken(_) => Some(EngageReplyView::Done(verdict(spawned, "pfctl -X"@))),
            EngageCallView::SaveTransient(_) | EngageCallView::TransientRestore(_) => None,
        }
    }
}

impl EngageCall {
    /// The control command to run, `None` where a record is to be written or a cover
    /// to be taken down instead.
    pub fn command(&self) -> (r: Option<PfCommand>)
        ensures
            command_view(r) == self@.control_command(),
    {
        match self {
            EngageCall::PfEnabled => Some(two_args("-s", "info", None)),
            EngageCall::EnableCaptureToken => Some(one_arg("-E")),
            EngageCall::LoadRuleset(text) => Some(two_args("-f", "-", Some(text.clone()))),
            EngageCall::FlushStates => Some(two_args("-F", "states", None)),
            EngageCall::DropToken(token) => Some(two_args("-X", token.as_str(), None)),
            EngageCall::SaveTransient(_) => None,
            EngageCall::TransientRestore(_) => None,
        }
    }

    /// The reply to a call whose control command was run.
    pub fn ran(&self, spawned: Result<CommandOutput, String>) -> (r: EngageReply)
        requires
            self@.control_command() is Some,
        ensures
            Some(r@) == self@.answered(spawned),
            r@.fits(self@),
    {
        match self {
            EngageCall::PfEnabled => EngageReply::Enabled(run_enabled(spawned)),
            EngageCall::EnableCaptureToken => EngageReply::Token(run_token(spawned)),
            EngageCall::LoadRuleset(_) => EngageReply::Done(run_status(spawned, "pfctl load")),
            EngageCall::FlushStates => EngageReply::Done(run_status(spawned, "pfctl -F states")),
            EngageCall::DropToken(_) => EngageReply::Done(run_status(spawned, "pfctl -X")),
            EngageCall::SaveTransient(_) | EngageCall::TransientRestore(_) => unreached(),
        }
    }

    /// The reply to a record that was written, or could not be.
    pub fn saved(written: Result<(), String>) -> (r: EngageReply)
        ensures
            r@ == EngageReplyView::Done(
                match written {
                    Ok(()) => Ok(()),
                    Err(e) => Err(RoutingErrorView::RouteSetup("failed to persist failclosed-state: "@ + e@)),
                },
            ),
    {
        match written {
            Ok(()) => EngageReply::Done(Ok(())),
            Err(e) => EngageReply::Done(Err(prefixed_error("failed to persist failclosed-state: ", e))),
        }
    }
}

impl LockdownCallView {
    /// The control command behind the call, where there is one.
    pub open spec fn control_command(self) -> Option<PfCommandView> {
        match self {
            LockdownCallView::PfEnabled => Some(control(seq!["-s"@, "info"@], None)),
            LockdownCallView::EnableCaptureToken => Some(control(seq!["-E"@], None)),
            LockdownCallView::ShowFilter => Some(control(seq!["-sr"@], None)),
            LockdownCallView::ShowTranslation => Some(control(seq!["-sn"@], None)),
            LockdownCallView::LoadRuleset(text) => Some(control(seq!["-f"@, "-"@], Some(text))),
            LockdownCallView::DropToken(token) => Some(control(seq!["-X"@, token], None)),
            LockdownCallView::LoadStanding | LockdownCallView::Presence | LockdownCallView::SaveStanding(
                _,
            ) | LockdownCallView::Disengage => None,
        }
    }

    /// What the call's command answers; a call without one has no such answer.
    pub open spec fn answered(self, spawned: Result<CommandOutput, String>) -> Option<LockdownReplyView> {
        match self {
            LockdownCallView::PfEnabled => Some(LockdownReplyView::Enabled(enabled_answer(spawned))),
            LockdownCallView::EnableCaptureToken => Some(LockdownReplyView::Token(token_answer(spawned))),
            LockdownCallView::ShowFilter => Some(LockdownReplyView::Text(answer(spawned, "pfctl -sr"@))),
            LockdownCallView::ShowTranslation => Some(LockdownReplyView::Text(answer(spawned, "pfctl -sn"@))),
            LockdownCallView::LoadRuleset(_) => Some(LockdownReplyView::Done(verdict(spawned, "pfctl load"@))),
            LockdownCallView::DropToken(_) => Some(LockdownReplyView::Done(verdict(spawned, "pfctl -X"@))),
            LockdownCallView::LoadStanding | LockdownCallView::Presence | LockdownCallView::SaveStanding(
                _,
            ) | LockdownCallView::Disengage => None,
        }
    }
}

impl LockdownCall {
    /// The control command to run, `None` where a record is to be read or written, a
    /// presence to be found out or the lockdown to be taken down instead.
    pub fn command(&self) -> (r: Option<PfCommand>)
        ensures
            command_view(r) == self@.control_command(),
    {
        match self {
            LockdownCall::PfEnabled => Some(two_args("-s", "info", None)),
            LockdownCall::EnableCaptureToken => Some(one_arg("-E")),
            LockdownCall::ShowFilter => Some(one_arg("-sr")),
            LockdownCall::ShowTranslation => Some(one_arg("-sn")),
            LockdownCall::LoadRuleset(text) => Some(two_args("-f", "-", Some(text.clone()))),
            LockdownCall::DropToken(token) => Some(two_args("-X", token.as_str(), None)),
            LockdownCall::LoadStanding => None,
            LockdownCall::Presence => None,
            LockdownCall::SaveStanding(_) => None,
            LockdownCall::Disengage => None,
        }
    }

    /// The reply to a call whose control command was run.
    pub fn ran(&self, spawned: Result<CommandOutput, String>) -> (r: LockdownReply)
        requires
            self@.control_command() is Some,
        ensures
            Some(r@) == self@.answered(spawned),
            r@.fits(self@),
    {
        match self {
            LockdownCall::PfEnabled => LockdownReply::Enabled(run_enabled(spawned)),
            LockdownCall::EnableCaptureToken => LockdownReply::Token(run_token(spawned)),
            LockdownCall::ShowFilter => LockdownReply::Text(run_stdout(spawned, "pfctl -sr")),
            LockdownCall::ShowTranslation => LockdownReply::Text(run_stdout(spawned, "pfctl -sn")),
            LockdownCall::LoadRuleset(_) => LockdownReply::Done(run_status(spawned, "pfctl load")),
            LockdownCall::DropToken(_) => LockdownReply::Done(run_status(spawned, "pfctl -X")),
            LockdownCall::LoadStanding
            | LockdownCall::Presence
            | LockdownCall::SaveStanding(_)
            | LockdownCall::Disengage => unreached(),
        }
    }
}

} // verus!
