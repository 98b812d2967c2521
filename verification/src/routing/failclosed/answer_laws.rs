//! What the packet filter's control command is asked, and what is made of its answers.

use vstd::prelude::*;
use crate::error::{CommandOutput, RoutingError, RoutingErrorView};
use crate::reading::{a_newline_ends_a_line, all_white, an_unended_line_is_kept, free_of, lemma_leading_white};
use crate::routing::failclosed::engage::{EngageCallView, EngageReplyView};
use crate::routing::failclosed::lockdown::{LockdownCallView, LockdownReplyView};
use crate::routing::failclosed::pf_command::{token_answer, verdict, PfCommandView};
use crate::routing::failclosed::pf_output::{
    any_says_enabled, carries_label, confirmed, enable_token, printed, says_enabled, token_in,
};
use crate::routing::failclosed::release::PfCallView;
use crate::text::{behind, first_at, first_field, is_white, lines, occurs, occurs_at, trim};

verus! {

/// A line that can stand before a newline and be read as it is.
pub open spec fn plain_line(l: Seq<char>) -> bool {
    free_of(l, '\n') && !(l.len() > 0 && l.last() == '\r')
}

/// A listing names the lockdown's label exactly where one of its lines has the label
/// as its first field.
pub proof fn a_listing_is_read_line_by_line(l: Seq<char>, rest: Seq<char>)
    requires
        plain_line(l),
    ensures
        carries_label(l.push('\n') + rest) <==> first_field(l) == Some("hole-lockdown"@) || carries_label(rest),
        l.len() > 0 ==> (carries_label(l) <==> first_field(l) == Some("hole-lockdown"@)),
        !carries_label(Seq::empty()),
{
    a_newline_ends_a_line(l, rest);
    an_unended_line_is_kept(l);
    an_unended_line_is_kept(Seq::empty());
    let all = lines(l.push('\n') + rest);
    let later = lines(rest);
    assert(all == seq![l] + later);
    assert(all[0] == l);
    assert forall|i: int| 0 <= i < later.len() implies all[i + 1] == later[i] by {}
    if carries_label(rest) {
        let i = choose|i: int| 0 <= i < later.len() && first_field(#[trigger] later[i]) == Some("hole-lockdown"@);
        assert(first_field(all[i + 1]) == Some("hole-lockdown"@));
    }
    if carries_label(l.push('\n') + rest) && first_field(l) != Some("hole-lockdown"@) {
        let i = choose|i: int| 0 <= i < all.len() && first_field(#[trigger] all[i]) == Some("hole-lockdown"@);
        assert(later[i - 1] == all[i]);
    }
    if l.len() > 0 {
        assert(lines(l)[0] == l);
    }
}

/// The packet filter says that it is enabled exactly where one line starts with its
/// status and has the word in it.
pub proof fn a_status_is_read_line_by_line(l: Seq<char>, rest: Seq<char>)
    requires
        plain_line(l),
    ensures
        any_says_enabled(l.push('\n') + rest) <==> says_enabled(l) || any_says_enabled(rest),
        !any_says_enabled(Seq::empty()),
{
    a_newline_ends_a_line(l, rest);
    an_unended_line_is_kept(Seq::empty());
    let all = lines(l.push('\n') + rest);
    let later = lines(rest);
    assert(all == seq![l] + later);
    assert(all[0] == l);
    assert forall|i: int| 0 <= i < later.len() implies all[i + 1] == later[i] by {}
    if any_says_enabled(rest) {
        let i = choose|i: int| 0 <= i < later.len() && says_enabled(#[trigger] later[i]);
        assert(says_enabled(all[i + 1]));
    }
    if any_says_enabled(l.push('\n') + rest) && !says_enabled(l) {
        let i = choose|i: int| 0 <= i < all.len() && says_enabled(#[trigger] all[i]);
        assert(later[i - 1] == all[i]);
    }
}

/// A status line is one whose first characters, past any white space, are its mark, and
/// that has the word somewhere.
pub proof fn a_status_line_starts_with_its_mark(l: Seq<char>, k: int)
    requires
        0 <= k < l.len(),
        all_white(l.take(k)),
        !is_white(l[k]),
    ensures
        says_enabled(l) <==> occurs(l, "Enabled"@) && l.len() >= k + 7 && l.subrange(k, k + 7) == "Status:"@,
{
    reveal_strlit("Status:");
    assert("Status:"@.len() == 7);
    let t = l.skip(k);
    assert(t[0] == l[k]);
    lemma_leading_white(l.take(k), t);
    assert(l.take(k) + t =~= l);
    if l.len() >= k + 7 {
        assert(t.subrange(0, 7) =~= l.subrange(k, k + 7));
    }
}

/// The token is what stands behind the first mark in the first line that has one,
/// without the white space around it; a mark with nothing behind it is no token, and
/// lines without a mark say nothing.
pub proof fn a_token_is_read_behind_the_first_mark(l: Seq<char>, rest: Seq<char>, at: int)
    requires
        plain_line(l),
    ensures
        !occurs(l, "Token :"@) ==> token_in(lines(l.push('\n') + rest)) == token_in(lines(rest)),
        first_at(l, "Token :"@, at) ==> token_in(lines(l.push('\n') + rest)) == if trim(l.skip(at + 7)).len() == 0 {
            None
        } else {
            Some(trim(l.skip(at + 7)))
        },
        token_in(lines(Seq::empty())) is None,
{
    a_newline_ends_a_line(l, rest);
    an_unended_line_is_kept(Seq::empty());
    let all = lines(l.push('\n') + rest);
    assert(all == seq![l] + lines(rest));
    assert(all.drop_first() =~= lines(rest));
    assert(all[0] == l);
    if first_at(l, "Token :"@, at) {
        reveal_strlit("Token :");
        assert(occurs(l, "Token :"@));
        let j = choose|j: int| first_at(l, "Token :"@, j);
        assert(first_at(l, "Token :"@, j));
        assert(j == at) by {
            if j < at {
                assert(!occurs_at(l, "Token :"@, j));
            }
            if at < j {
                assert(!occurs_at(l, "Token :"@, at));
            }
        }
        assert("Token :"@.len() == 7);
        assert(behind(l, "Token :"@) == l.skip(at + 7));
    }
}

/// The token is looked for on standard error first and on standard output then,
/// whatever the exit status; where neither has one that is an error.
pub proof fn a_token_is_looked_for_on_both_streams(o: CommandOutput, other: CommandOutput)
    requires
        o.stdout == other.stdout,
        o.stderr == other.stderr,
    ensures
        ({
            let run = Ok::<CommandOutput, RoutingError>(o);
            &&& token_in(lines(o.stderr@)) matches Some(t) ==> enable_token(run) == Ok::<Seq<char>, RoutingErrorView>(t)
            &&& token_in(lines(o.stderr@)) is None ==> match token_in(lines(o.stdout@)) {
                Some(t) => enable_token(run) == Ok::<Seq<char>, RoutingErrorView>(t),
                None => enable_token(run) is Err,
            }
            &&& enable_token(run) == enable_token(Ok::<CommandOutput, RoutingError>(other))
        }),
{
}

/// A run that failed is never taken for an answer, whatever it printed; one that
/// succeeded is, and what it printed on standard output is the answer.
pub proof fn a_failed_run_is_no_answer(o: CommandOutput, e: String, what: Seq<char>)
    ensures
        printed(Ok::<CommandOutput, RoutingError>(o), what) is Ok <==> o.success,
        o.success ==> printed(Ok::<CommandOutput, RoutingError>(o), what)->Ok_0 == o.stdout@,
        !o.success ==> printed(Ok::<CommandOutput, RoutingError>(o), what)->Err_0 == RoutingErrorView::RouteSetup(
            what + " failed: "@ + trim(o.stderr@),
        ),
        verdict(Ok(o), what) is Ok <==> o.success,
        verdict(Err(e), what) == Err::<(), RoutingErrorView>(
            RoutingErrorView::RouteSetup("pfctl spawn failed: "@ + e@),
        ),
        token_answer(Err(e)) == Err::<Seq<char>, RoutingErrorView>(
            RoutingErrorView::RouteSetup("pfctl spawn failed: "@ + e@),
        ),
        confirmed(false, Ok::<CommandOutput, RoutingError>(o)) <==> o.success,
        confirmed(true, Ok::<CommandOutput, RoutingError>(o)),
{
}

/// The control command with these words, and with this to read.
pub open spec fn asks(c: Option<PfCommandView>, words: Seq<Seq<char>>, stdin: Option<Seq<char>>) -> bool {
    c matches Some(c) && c.argv == seq!["/sbin/pfctl"@] + words && c.stdin == stdin
}

/// A ruleset is loaded from what the command reads, and that is the whole ruleset and
/// nothing else; a reference is dropped by its own token; the host's ruleset is loaded
/// from its file; and no record is touched by a command.
pub proof fn each_call_asks_for_what_it_names(text: Seq<char>, token: Seq<char>)
    ensures
        asks(PfCallView::LoadRuleset(text).control_command(), seq!["-f"@, "-"@], Some(text)),
        asks(EngageCallView::LoadRuleset(text).control_command(), seq!["-f"@, "-"@], Some(text)),
        asks(LockdownCallView::LoadRuleset(text).control_command(), seq!["-f"@, "-"@], Some(text)),
        asks(PfCallView::DropToken(token).control_command(), seq!["-X"@, token], None),
        asks(EngageCallView::DropToken(token).control_command(), seq!["-X"@, token], None),
        asks(LockdownCallView::DropToken(token).control_command(), seq!["-X"@, token], None),
        asks(PfCallView::ReloadDefault.control_command(), seq!["-f"@, "/etc/pf.conf"@], None),
        asks(EngageCallView::PfEnabled.control_command(), seq!["-s"@, "info"@], None),
        asks(LockdownCallView::PfEnabled.control_command(), seq!["-s"@, "info"@], None),
        asks(EngageCallView::EnableCaptureToken.control_command(), seq!["-E"@], None),
        asks(LockdownCallView::EnableCaptureToken.control_command(), seq!["-E"@], None),
        asks(EngageCallView::FlushStates.control_command(), seq!["-F"@, "states"@], None),
        asks(LockdownCallView::ShowFilter.control_command(), seq!["-sr"@], None),
        asks(LockdownCallView::ShowTranslation.control_command(), seq!["-sn"@], None),
        PfCallView::ClearTransient.control_command() is None,
        PfCallView::ClearStanding.control_command() is None,
        LockdownCallView::LoadStanding.control_command() is None,
        LockdownCallView::Presence.control_command() is None,
        LockdownCallView::Disengage.control_command() is None,
{
}

/// A run that did not succeed answers an engage's call with an error, and one that did
/// with what it printed. Enabling alone is judged by the token.
pub proof fn an_engage_is_answered_by_its_run(call: EngageCallView, o: CommandOutput, e: String)
    requires
        call.control_command() is Some,
    ensures
        match call {
            EngageCallView::PfEnabled => {
                &&& o.success ==> call.answered(Ok(o)) == Some(EngageReplyView::Enabled(Ok(any_says_enabled(o.stdout@))))
                &&& !o.success ==> (call.answered(Ok(o)) matches Some(EngageReplyView::Enabled(Err(_))))
                &&& (call.answered(Err(e)) matches Some(EngageReplyView::Enabled(Err(_))))
            },
            EngageCallView::EnableCaptureToken => {
                &&& call.answered(Ok(o)) == Some(
                    EngageReplyView::Token(enable_token(Ok::<CommandOutput, RoutingError>(o))),
                )
                &&& (call.answered(Err(e)) matches Some(EngageReplyView::Token(Err(_))))
            },
            _ => {
                &&& (call.answered(Ok(o)) matches Some(EngageReplyView::Done(r)) && (r is Ok <==> o.success))
                &&& (call.answered(Err(e)) matches Some(EngageReplyView::Done(Err(_))))
            },
        },
{
}

/// The same of a lockdown's calls: the loaded rules are what was printed, in full.
pub proof fn a_lockdown_is_answered_by_its_run(call: LockdownCallView, o: CommandOutput, e: String)
    requires
        call.control_command() is Some,
    ensures
        match call {
            LockdownCallView::PfEnabled => {
                &&& o.success ==> call.answered(Ok(o)) == Some(
                    LockdownReplyView::Enabled(Ok(any_says_enabled(o.stdout@))),
                )
                &&& !o.success ==> (call.answered(Ok(o)) matches Some(LockdownReplyView::Enabled(Err(_))))
                &&& (call.answered(Err(e)) matches Some(LockdownReplyView::Enabled(Err(_))))
            },
            LockdownCallView::EnableCaptureToken => {
                &&& call.answered(Ok(o)) == Some(
                    LockdownReplyView::Token(enable_token(Ok::<CommandOutput, RoutingError>(o))),
                )
                &&& (call.answered(Err(e)) matches Some(LockdownReplyView::Token(Err(_))))
            },
            LockdownCallView::ShowFilter | LockdownCallView::ShowTranslation => {
                &&& o.success ==> call.answered(Ok(o)) == Some(LockdownReplyView::Text(Ok(o.stdout@)))
                &&& !o.success ==> (call.answered(Ok(o)) matches Some(LockdownReplyView::Text(Err(_))))
                &&& (call.answered(Err(e)) matches Some(LockdownReplyView::Text(Err(_))))
            },
            _ => {
                &&& (call.answered(Ok(o)) matches Some(LockdownReplyView::Done(r)) && (r is Ok <==> o.success))
                &&& (call.answered(Err(e)) matches Some(LockdownReplyView::Done(Err(_))))
            },
        },
{
}

/// A run that failed is told by the name of what it was run for, and by what it printed
/// on standard error, without the white space around that.
pub proof fn a_failed_run_is_told_by_name(o: CommandOutput, text: Seq<char>, token: Seq<char>)
    requires
        !o.success,
    ensures
        ({
            let why = |name: Seq<char>| RoutingErrorView::RouteSetup(name + " failed: "@ + trim(o.stderr@));
            let done = |r: Result<(), RoutingErrorView>, name: Seq<char>| r == Err::<(), RoutingErrorView>(why(name));
            &&& done(verdict(Ok(o), PfCallView::ReloadDefault.named()), "pf default-ruleset reload"@)
            &&& done(verdict(Ok(o), PfCallView::LoadRuleset(text).named()), "pf ruleset load"@)
            &&& done(verdict(Ok(o), PfCallView::DropToken(token).named()), "pfctl -X"@)
            &&& PfCallView::ClearTransient.named() == "failclosed-state clear"@
            &&& PfCallView::ClearStanding.named() == "lockdown-pf-state clear"@
            &&& EngageCallView::PfEnabled.answered(Ok(o)) == Some(EngageReplyView::Enabled(Err(why("pfctl -s info"@))))
            &&& EngageCallView::LoadRuleset(text).answered(Ok(o)) == Some(EngageReplyView::Done(Err(why("pfctl load"@))))
            &&& EngageCallView::FlushStates.answered(Ok(o)) == Some(EngageReplyView::Done(Err(why("pfctl -F states"@))))
            &&& EngageCallView::DropToken(token).answered(Ok(o)) == Some(EngageReplyView::Done(Err(why("pfctl -X"@))))
            &&& LockdownCallView::PfEnabled.answered(Ok(o)) == Some(
                LockdownReplyView::Enabled(Err(why("pfctl -s info"@))),
            )
            &&& LockdownCallView::ShowFilter.answered(Ok(o)) == Some(LockdownReplyView::Text(Err(why("pfctl -sr"@))))
            &&& LockdownCallView::ShowTranslation.answered(Ok(o)) == Some(
                LockdownReplyView::Text(Err(why("pfctl -sn"@))),
            )
            &&& LockdownCallView::LoadRuleset(text).answered(Ok(o)) == Some(
                LockdownReplyView::Done(Err(why("pfctl load"@))),
            )
            &&& LockdownCallView::DropToken(token).answered(Ok(o)) == Some(
                LockdownReplyView::Done(Err(why("pfctl -X"@))),
            )
        }),
{
}

} // verus!
