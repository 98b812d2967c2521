//! Running the packet filter's control command, and reading what it prints.

use vstd::prelude::*;
use crate::error::{CommandOutput, RoutingError, RoutingErrorView};
use crate::routing::commands::words;
use crate::routing::failclosed::pf_rules::LOCKDOWN_PF_LABEL;
use crate::text::{
    behind, find, find_behind, first_field, first_field_is, lines, lines_of, occurs, occurs_at, starts_with_trimmed,
    trim, trim_start, trimmed,
};

verus! {

/// The host's own ruleset.
pub const PFCONF: &'static str = "/etc/pf.conf";

/// The control command, by its absolute path: it runs with privileges, so the
/// search path must have no say in which file is run.
pub const PFCTL: &'static str = "/sbin/pfctl";

/// The command line that runs the control command with `args`.
pub fn pfctl_cmd(args: &[&str]) -> (r: Vec<String>)
    ensures
        words(r@) == seq![PFCTL@] + args@.map_values(|a: &str| a@),
{
    let ghost want = seq![PFCTL@] + args@.map_values(|a: &str| a@);
    let mut out: Vec<String> = vec![PFCTL.to_owned()];
    let mut i: usize = 0;
    assert(words(out@) =~= want.take(1));
    while i < args.len()
        invariant
            i <= args.len(),
            want == seq![PFCTL@] + args@.map_values(|a: &str| a@),
            words(out@) == want.take(i + 1),
        decreases args.len() - i,
    {
        let ghost before = out@;
        out.push(args[i].to_owned());
        i = i + 1;
        assert(words(out@) =~= words(before).push(args@[i - 1]@));
        assert(words(out@) =~= want.take(i + 1));
    }
    assert(want.take(args.len() + 1) =~= want);
    out
}

/// The control command's output, or the error that it could not be started.
pub fn pfctl(spawned: Result<CommandOutput, String>) -> (r: Result<CommandOutput, RoutingError>)
    ensures
        match spawned {
            Ok(out) => r == Ok::<CommandOutput, RoutingError>(out),
            Err(e) => r matches Err(x) && x@ == RoutingErrorView::RouteSetup("pfctl spawn failed: "@ + e@),
        },
{
    match spawned {
        Ok(out) => Ok(out),
        Err(e) => {
            let mut text = "pfctl spawn failed: ".to_owned();
            text.append(e.as_str());
            Err(RoutingError::RouteSetup(text))
        }
    }
}

/// A line names our label: it is the line's first field, not a part of one and not
/// a later one.
pub open spec fn carries_label(listing: Seq<char>) -> bool {
    exists|i: int|
        0 <= i < lines(listing).len() && first_field(#[trigger] lines(listing)[i]) == Some(LOCKDOWN_PF_LABEL@)
}

/// Whether a listing of rule labels names the lockdown's.
pub fn labels_listing_carries_our_label(labels_output: &str) -> (r: bool)
    ensures
        r == carries_label(labels_output@),
{
    let all = lines_of(labels_output);
    let mut i: usize = 0;
    while i < all.len()
        invariant
            i <= all.len(),
            all.len() == lines(labels_output@).len(),
            forall|j: int| 0 <= j < all.len() ==> (#[trigger] all[j])@ == lines(labels_output@)[j],
            forall|j: int|
                0 <= j < i ==> first_field(#[trigger] lines(labels_output@)[j]) != Some(LOCKDOWN_PF_LABEL@),
        decreases all.len() - i,
    {
        assert(all[i as int]@ == lines(labels_output@)[i as int]);
        if first_field_is(&all[i], LOCKDOWN_PF_LABEL) {
            return true;
        }
        i = i + 1;
    }
    false
}

/// The packet filter's own answer to whether the lockdown is loaded. A command that
/// did not run or did not succeed gave none, and that is not a no.
pub fn pf_label_answer(out: Result<CommandOutput, RoutingError>) -> (r: Option<bool>)
    ensures
        r == match out {
            Ok(o) if o.success => Some(carries_label(o.stdout@)),
            _ => None,
        },
{
    match out {
        Ok(o) => {
            if o.success {
                Some(labels_listing_carries_our_label(o.stdout.as_str()))
            } else {
                None
            }
        }
        Err(_) => None,
    }
}

/// The token in the first of these lines that has one, `None` where that line has
/// nothing behind the mark.
pub open spec fn token_in(all: Seq<Seq<char>>) -> Option<Seq<char>>
    decreases all.len(),
{
    if all.len() == 0 {
        None
    } else if occurs(all[0], "Token :"@) {
        let token = trim(behind(all[0], "Token :"@));
        if token.len() == 0 {
            None
        } else {
            Some(token)
        }
    } else {
        token_in(all.drop_first())
    }
}

pub open spec fn token_view(r: Option<String>) -> Option<Seq<char>> {
    match r {
        Some(t) => Some(t@),
        None => None,
    }
}

/// The enable reference's token, in what enabling the packet filter printed.
pub fn parse_enable_token(output: &str) -> (r: Option<String>)
    ensures
        token_view(r) == token_in(lines(output@)),
{
    let all = lines_of(output);
    let ghost want = lines(output@);
    let mut i: usize = 0;
    assert(want.skip(0) =~= want);
    while i < all.len()
        invariant
            i <= all.len(),
            want == lines(output@),
            all.len() == want.len(),
            forall|j: int| 0 <= j < all.len() ==> (#[trigger] all[j])@ == want[j],
            token_in(want.skip(i as int)) == token_in(want),
        decreases all.len() - i,
    {
        assert(all[i as int]@ == want[i as int]);
        assert(want.skip(i as int)[0] == want[i as int]);
        assert(want.skip(i as int).drop_first() =~= want.skip(i + 1));
        if let Some(token) = find_behind(&all[i], "Token :") {
            if token.as_str().unicode_len() == 0 {
                return None;
            }
            return Some(token);
        }
        i = i + 1;
    }
    None
}

/// A status line reads as enabled.
pub open spec fn says_enabled(line: Seq<char>) -> bool {
    occurs_at(trim_start(line), "Status:"@, 0) && occurs(line, "Enabled"@)
}

pub open spec fn any_says_enabled(output: Seq<char>) -> bool {
    exists|i: int| 0 <= i < lines(output).len() && says_enabled(#[trigger] lines(output)[i])
}

/// Whether the packet filter says that it is enabled.
pub fn parse_pf_enabled(output: &str) -> (r: bool)
    ensures
        r == any_says_enabled(output@),
{
    let all = lines_of(output);
    let mut i: usize = 0;
    while i < all.len()
        invariant
            i <= all.len(),
            all.len() == lines(output@).len(),
            forall|j: int| 0 <= j < all.len() ==> (#[trigger] all[j])@ == lines(output@)[j],
            forall|j: int| 0 <= j < i ==> !says_enabled(#[trigger] lines(output@)[j]),
        decreases all.len() - i,
    {
        assert(all[i as int]@ == lines(output@)[i as int]);
        if starts_with_trimmed(&all[i], "Status:") {
            let found = find(&all[i], "Enabled");
            if found.is_some() {
                assert(occurs(all[i as int]@, "Enabled"@)) by {
                    assert(occurs_at(all[i as int]@, "Enabled"@, found->0 as int));
                }
                return true;
            }
        }
        i = i + 1;
    }
    false
}

/// The view of a result that yields text.
pub open spec fn text_view(r: Result<String, RoutingError>) -> Result<Seq<char>, RoutingErrorView> {
    match r {
        Ok(t) => Ok(t@),
        Err(e) => Err(e@),
    }
}

/// What a run printed, and an error where it did not succeed: a failed run's output
/// is never taken for an answer.
pub open spec fn printed(out: Result<CommandOutput, RoutingError>, what: Seq<char>) -> Result<
    Seq<char>,
    RoutingErrorView,
> {
    match out {
        Err(e) => Err(e@),
        Ok(o) => if o.success {
            Ok(o.stdout@)
        } else {
            Err(RoutingErrorView::RouteSetup(what + " failed: "@ + trim(o.stderr@)))
        },
    }
}

/// What a run printed, or why that is not known. `what` names the run.
pub fn pfctl_stdout(out: Result<CommandOutput, RoutingError>, what: &str) -> (r: Result<String, RoutingError>)
    ensures
        text_view(r) == printed(out, what@),
{
    match out {
        Err(e) => Err(e),
        Ok(o) => {
            if o.success {
                Ok(o.stdout)
            } else {
                let mut text = what.to_owned();
                text.append(" failed: ");
                text.append(trimmed(o.stderr.as_str()).as_str());
                Err(RoutingError::RouteSetup(text))
            }
        }
    }
}

/// Whether a run succeeded. `what` names the run.
pub fn pfctl_status(out: Result<CommandOutput, RoutingError>, what: &str) -> (r: Result<(), RoutingError>)
    ensures
        match printed(out, what@) {
            Ok(_) => r is Ok,
            Err(e) => r matches Err(x) && x@ == e,
        },
{
    match pfctl_stdout(out, what) {
        Ok(_) => Ok(()),
        Err(e) => Err(e),
    }
}

/// The token that enabling the packet filter took: printed on standard error, or
/// else on standard output.
pub open spec fn enable_token(out: Result<CommandOutput, RoutingError>) -> Result<Seq<char>, RoutingErrorView> {
    match out {
        Err(e) => Err(e@),
        Ok(o) => match token_in(lines(o.stderr@)) {
            Some(token) => Ok(token),
            None => match token_in(lines(o.stdout@)) {
                Some(token) => Ok(token),
                None => Err(RoutingErrorView::RouteSetup("pfctl -E returned no token"@)),
            },
        },
    }
}

/// Read the token out of what enabling the packet filter printed.
pub fn enable_pf_capture_token(out: Result<CommandOutput, RoutingError>) -> (r: Result<String, RoutingError>)
    ensures
        text_view(r) == enable_token(out),
{
    match out {
        Err(e) => Err(e),
        Ok(o) => {
            if let Some(token) = parse_enable_token(o.stderr.as_str()) {
                return Ok(token);
            }
            if let Some(token) = parse_enable_token(o.stdout.as_str()) {
                return Ok(token);
            }
            Err(RoutingError::RouteSetup("pfctl -E returned no token".to_owned()))
        }
    }
}

/// The host is known to be back on its own rules. While a standing cover is being
/// adopted nothing was reloaded, so there is nothing to confirm; otherwise only a
/// reload that ran and succeeded confirms it.
pub open spec fn confirmed(adopting: bool, out: Result<CommandOutput, RoutingError>) -> bool {
    adopting || (out matches Ok(o) && o.success)
}

/// Whether the host is known to be back on its own rules.
pub fn restore_confirmed(adopting: bool, out: &Result<CommandOutput, RoutingError>) -> (r: bool)
    ensures
        r == confirmed(adopting, *out),
{
    if adopting {
        return true;
    }
    match out {
        Ok(o) => o.success,
        Err(_) => false,
    }
}

/// What engaging a lockdown does about the packet filter's enable reference.
#[derive(Debug, Clone, Copy, PartialEq, Eq, Structural)]
pub enum PfEngageAction {
    /// First engage: enable, and take the host's rules down.
    FreshEnable,
    /// Engaged before on this boot: the reference is still held.
    ReuseToken,
    /// Engaged on an earlier boot: the recorded reference is gone.
    Reenable,
}

/// Decide it from whether the packet filter is enabled and a record exists.
pub fn engage_pf_action(pf_enabled: bool, has_persisted: bool) -> (r: PfEngageAction)
    ensures
        r == if !has_persisted {
            PfEngageAction::FreshEnable
        } else if pf_enabled {
            PfEngageAction::ReuseToken
        } else {
            PfEngageAction::Reenable
        },
{
    match (has_persisted, pf_enabled) {
        (false, _) => PfEngageAction::FreshEnable,
        (true, true) => PfEngageAction::ReuseToken,
        (true, false) => PfEngageAction::Reenable,
    }
}

} // verus!
