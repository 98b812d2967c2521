//! From an interface's alias to its locally unique identifier.

use vstd::prelude::*;
use crate::error::{RoutingError, RoutingErrorView};
use crate::reading::{a_numeral_reads_back, all_digits, number};
use crate::text::{numeral, push_numeral};

verus! {

/// Resolves an interface alias. The identifier is never kept: every engage resolves
/// it anew.
pub trait LuidResolver: Sized + Send + Sync {
    /// What the resolver may answer to an alias, and what it is afterwards. Anything,
    /// unless an implementation says more.
    open spec fn may_answer(self, alias: Seq<char>, answer: Result<u64, RoutingError>, after: Self) -> bool {
        true
    }

    fn resolve(&mut self, alias: &str) -> (r: Result<u64, RoutingError>)
        ensures
            old(self).may_answer(alias@, r, *final(self)),
    ;
}

/// What the host said when an alias was looked up.
#[derive(Debug, Clone, PartialEq, Eq)]
pub struct AliasLookup {
    /// The alias that was looked up.
    pub alias: String,
    pub status: u32,
    /// The identifier that the lookup wrote.
    pub luid: u64,
}

/// The system's resolver. It answers from the lookup that was made for it, `None` on
/// hosts whose interfaces have no such identifier.
#[derive(Debug, Clone, PartialEq, Eq)]
pub struct SystemLuidResolver {
    pub lookup: Option<AliasLookup>,
}

impl LuidResolver for SystemLuidResolver {
    /// The lookup's outcome, for the alias that was looked up. Of another alias it
    /// knows no identifier.
    open spec fn may_answer(self, alias: Seq<char>, answer: Result<u64, RoutingError>, after: Self) -> bool {
        &&& after == self
        &&& match self.lookup {
            Some(lookup) => if lookup.alias@ == alias {
                is_luid_outcome(alias, lookup.status, lookup.luid, answer)
            } else {
                answer matches Err(e) && e@ == RoutingErrorView::RouteSetup("no lookup was made for '"@ + alias + "'"@)
            },
            None => answer matches Err(e) && e@ == RoutingErrorView::RouteSetup("LUID resolution is Windows-only"@),
        }
    }

    fn resolve(&mut self, alias: &str) -> (r: Result<u64, RoutingError>) {
        match &self.lookup {
            Some(lookup) => if lookup.alias == alias.to_owned() {
                luid_answer(alias, lookup.status, lookup.luid)
            } else {
                let mut text = "no lookup was made for '".to_owned();
                text.append(alias);
                text.append("'");
                Err(RoutingError::RouteSetup(text))
            },
            None => Err(RoutingError::RouteSetup("LUID resolution is Windows-only".to_owned())),
        }
    }
}

/// What a lookup's status and identifier answer: the identifier, or an error that
/// names the alias and the status.
pub open spec fn is_luid_outcome(alias: Seq<char>, status: u32, luid: u64, r: Result<u64, RoutingError>) -> bool {
    if status == 0 {
        r == Ok::<u64, RoutingError>(luid)
    } else {
        r matches Err(e) && e@ == RoutingErrorView::RouteSetup(
            "ConvertInterfaceAliasToLuid('"@ + alias + "'): error WIN32_ERROR("@ + numeral(status as nat, 10) + ")"@,
        )
    }
}

/// The outcome of a Windows alias lookup.
pub fn luid_answer(alias: &str, status: u32, luid: u64) -> (r: Result<u64, RoutingError>)
    ensures
        is_luid_outcome(alias@, status, luid, r),
{
    if status == 0 {
        return Ok(luid);
    }
    let mut text = "ConvertInterfaceAliasToLuid('".to_owned();
    text.append(alias);
    text.append("'): error WIN32_ERROR(");
    push_numeral(&mut text, status as u64, 10);
    text.append(")");
    Err(RoutingError::RouteSetup(text))
}

/// A resolver with a canned answer that remembers what it was asked.
pub struct MockLuidResolver {
    pub luid: u64,
    pub fail: bool,
    pub last_alias: Option<String>,
}

impl MockLuidResolver {
    /// Answers every alias with `luid`.
    pub fn new(luid: u64) -> (r: Self)
        ensures
            r == (MockLuidResolver { luid, fail: false, last_alias: None }),
    {
        MockLuidResolver { luid, fail: false, last_alias: None }
    }

    /// Answers every alias with an error.
    pub fn failing() -> (r: Self)
        ensures
            r == (MockLuidResolver { luid: 0, fail: true, last_alias: None }),
    {
        MockLuidResolver { luid: 0, fail: true, last_alias: None }
    }
}

impl LuidResolver for MockLuidResolver {
    /// The canned answer. The alias is remembered either way.
    open spec fn may_answer(self, alias: Seq<char>, answer: Result<u64, RoutingError>, after: Self) -> bool {
        &&& after.luid == self.luid
        &&& after.fail == self.fail
        &&& after.last_alias matches Some(last) && last@ == alias
        &&& if self.fail {
            answer matches Err(e) && e@ == RoutingErrorView::RouteSetup("mock luid failure"@)
        } else {
            answer == Ok::<u64, RoutingError>(self.luid)
        }
    }

    fn resolve(&mut self, alias: &str) -> (r: Result<u64, RoutingError>) {
        self.last_alias = Some(alias.to_owned());
        if self.fail {
            Err(RoutingError::RouteSetup("mock luid failure".to_owned()))
        } else {
            Ok(self.luid)
        }
    }
}

/// A lookup answers with its identifier exactly where its status is zero; otherwise it
/// tells the alias that was asked for and the status.
pub proof fn a_lookup_succeeds_iff_its_status_is_zero(
    alias: Seq<char>,
    status: u32,
    luid: u64,
    r: Result<u64, RoutingError>,
)
    requires
        is_luid_outcome(alias, status, luid, r),
    ensures
        r is Ok <==> status == 0,
        r matches Ok(answer) ==> answer == luid,
        r matches Err(e) ==> exists|digits: Seq<char>|
            e@ == RoutingErrorView::RouteSetup(
                "ConvertInterfaceAliasToLuid('"@ + alias + "'): error WIN32_ERROR("@ + digits + ")"@,
            ) && #[trigger] number(digits, 10) == status && all_digits(digits, 10),
{
    a_numeral_reads_back(status as nat, 10);
    if let Err(e) = r {
        let digits = numeral(status as nat, 10);
        assert(number(digits, 10) == status && all_digits(digits, 10));
    }
}

/// The system's resolver answers for the alias that was looked up and for no other, and
/// where nothing was looked up for none; it stays as it is.
pub proof fn the_system_resolver_answers_for_its_alias_alone(
    resolver: SystemLuidResolver,
    alias: Seq<char>,
    answer: Result<u64, RoutingError>,
    after: SystemLuidResolver,
)
    requires
        resolver.may_answer(alias, answer, after),
    ensures
        after == resolver,
        answer is Ok <==> resolver.lookup is Some && resolver.lookup->0.alias@ == alias && resolver.lookup->0.status == 0,
        answer matches Ok(luid) ==> luid == resolver.lookup->0.luid,
{
}

} // verus!
