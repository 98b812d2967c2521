//! When "it was not seen" may be reported as "it is not there".

use vstd::prelude::*;

verus! {

/// What reading an object back came to.
#[derive(Debug, Clone, Copy, PartialEq, Eq)]
pub enum Readback<T> {
    Found(T),
    /// Every view was read, and none holds it.
    Absent,
    /// It was not found, and not every view was read.
    Unreadable,
}

/// The predicate refused this object.
pub open spec fn refused<T, F: Fn(&T) -> bool>(wanted: F, t: T) -> bool {
    call_ensures(wanted, (&t,), false)
}

/// The predicate refused the first `n` objects of a view; a view that could not be
/// read has none.
pub open spec fn refused_in<T, E, F: Fn(&T) -> bool>(wanted: F, view: Result<Vec<T>, E>, n: int) -> bool {
    view matches Ok(items) ==> forall|j: int| 0 <= j < n && j < items@.len() ==> refused(wanted, #[trigger] items@[j])
}

/// The predicate refused every object of the first `n` views.
pub open spec fn refused_before<T, E, F: Fn(&T) -> bool>(
    wanted: F,
    views: Seq<Result<Vec<T>, E>>,
    n: int,
) -> bool {
    forall|i: int|
        0 <= i < n && i < views.len() ==> (#[trigger] views[i] matches Ok(items) ==> forall|j: int|
            0 <= j < items@.len() ==> refused(wanted, #[trigger] items@[j]))
}

/// `t` is the `j`-th object of the `i`-th view, the predicate wants it, and refused
/// all before it.
pub open spec fn first_wanted_at<T, E, F: Fn(&T) -> bool>(
    wanted: F,
    views: Seq<Result<Vec<T>, E>>,
    i: int,
    j: int,
    t: T,
) -> bool {
    &&& 0 <= i < views.len()
    &&& views[i] matches Ok(items)
    &&& 0 <= j < items@.len()
    &&& items@[j] == t
    &&& call_ensures(wanted, (&t,), true)
    &&& refused_before(wanted, views, i)
    &&& refused_in(wanted, views[i], j)
}

fn find_wanted<T: Copy, F: Fn(&T) -> bool>(items: &Vec<T>, wanted: &F) -> (r: Option<usize>)
    requires
        forall|t: T| call_requires(*wanted, (&t,)),
    ensures
        match r {
            Some(j) => {
                &&& j < items@.len()
                &&& call_ensures(*wanted, (&items@[j as int],), true)
                &&& forall|k: int| 0 <= k < j ==> refused(*wanted, #[trigger] items@[k])
            },
            None => forall|k: int| 0 <= k < items@.len() ==> refused(*wanted, #[trigger] items@[k]),
        },
{
    let mut j: usize = 0;
    while j < items.len()
        invariant
            j <= items.len(),
            forall|t: T| call_requires(*wanted, (&t,)),
            forall|k: int| 0 <= k < j ==> refused(*wanted, #[trigger] items@[k]),
        decreases items.len() - j,
    {
        if wanted(&items[j]) {
            return Some(j);
        }
        j = j + 1;
    }
    None
}

/// The first object of the readable views, in order, that is wanted. A find
/// outranks an error in another view; without one, only a complete set of readable
/// views, at least one of them, is an absence.
pub fn verdict<T: Copy, E, F: Fn(&T) -> bool>(views: &[Result<Vec<T>, E>], wanted: F) -> (r: Readback<T>)
    requires
        forall|t: T| call_requires(wanted, (&t,)),
    ensures
        match r {
            Readback::Found(t) => exists|i: int, j: int|
                0 <= i < views@.len() && (#[trigger] views@[i]->Ok_0@[j]) == t && first_wanted_at(
                    wanted,
                    views@,
                    i,
                    j,
                    t,
                ),
            Readback::Absent => {
                &&& views@.len() > 0
                &&& forall|i: int| 0 <= i < views@.len() ==> #[trigger] views@[i] is Ok
                &&& refused_before(wanted, views@, views@.len() as int)
            },
            Readback::Unreadable => {
                &&& views@.len() == 0 || exists|i: int| 0 <= i < views@.len() && #[trigger] views@[i] is Err
                &&& refused_before(wanted, views@, views@.len() as int)
            },
        },
{
    let mut failed = false;
    let mut i: usize = 0;
    while i < views.len()
        invariant
            i <= views.len(),
            forall|t: T| call_requires(wanted, (&t,)),
            failed == exists|k: int| 0 <= k < i && #[trigger] views@[k] is Err,
            refused_before(wanted, views@, i as int),
        decreases views.len() - i,
    {
        match &views[i] {
            Ok(items) => {
                if let Some(j) = find_wanted(items, &wanted) {
                    let t: T = items[j];
                    assert(views@[i as int]->Ok_0@[j as int] == t);
                    assert(first_wanted_at(wanted, views@, i as int, j as int, t));
                    return Readback::Found(t);
                }
            }
            Err(_) => {
                failed = true;
                assert(views@[i as int] is Err);
            }
        }
        i = i + 1;
    }
    if views.len() == 0 || failed {
        return Readback::Unreadable;
    }
    Readback::Absent
}

/// What is found is an object of a readable view that the predicate wants, and no
/// object before it was wanted: none in an earlier view, and none earlier in its own.
pub proof fn what_is_found_is_the_first_that_is_wanted<T, E, F: Fn(&T) -> bool>(
    wanted: F,
    views: Seq<Result<Vec<T>, E>>,
    i: int,
    j: int,
    t: T,
    k: int,
    l: int,
)
    requires
        first_wanted_at(wanted, views, i, j, t),
        0 <= k <= i,
        views[k] is Ok,
        0 <= l < views[k]->Ok_0@.len(),
        k < i || l < j,
    ensures
        0 <= i < views.len() && views[i] is Ok && 0 <= j < views[i]->Ok_0@.len(),
        views[i]->Ok_0@[j] == t,
        call_ensures(wanted, (&t,), true),
        call_ensures(wanted, (&views[k]->Ok_0@[l],), false),
{
    let items = views[k]->Ok_0;
    assert(refused(wanted, items@[l]));
}

/// Where nothing was found, every object of every readable view was refused.
pub proof fn nothing_found_means_everything_refused<T, E, F: Fn(&T) -> bool>(
    wanted: F,
    views: Seq<Result<Vec<T>, E>>,
    k: int,
    l: int,
)
    requires
        refused_before(wanted, views, views.len() as int),
        0 <= k < views.len(),
        views[k] is Ok,
        0 <= l < views[k]->Ok_0@.len(),
    ensures
        call_ensures(wanted, (&views[k]->Ok_0@[l],), false),
{
    let items = views[k]->Ok_0;
    assert(refused(wanted, items@[l]));
}

} // verus!
