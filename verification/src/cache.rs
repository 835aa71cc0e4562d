//! Table-change events, and how a cached snapshot of the table follows them.

use crate::route::Route;
use vstd::prelude::*;

verus! {

/// One change of the routing table.
#[derive(Clone, Copy, Debug, PartialEq, Eq, Hash, Structural)]
pub enum RouteEvent {
    Add(Route),
    Delete(Route),
    Change(Route),
}

/// The position of the first entry of `s`, at or after `from`, of which `p`
/// holds; the length of `s` if there is none.
pub open spec fn first_where(s: Seq<Route>, p: spec_fn(Route) -> bool, from: int) -> int
    decreases s.len() - from,
{
    if from >= s.len() {
        s.len() as int
    } else if from >= 0 && p(s[from]) {
        from
    } else {
        first_where(s, p, from + 1)
    }
}

/// The entries equal to `r` in every field.
pub open spec fn equal_to(r: Route) -> spec_fn(Route) -> bool {
    |x: Route| x == r
}

/// The entries that lead to the network of `r`.
pub open spec fn targets_of(r: Route) -> spec_fn(Route) -> bool {
    |x: Route| x.same_target_spec(r)
}

/// The default routes.
pub open spec fn defaults() -> spec_fn(Route) -> bool {
    |x: Route| x.is_default_spec()
}

/// The cache after one event. `Add` appends the route. `Delete` removes the
/// first entry equal to the route, if there is one. `Change` removes the
/// first entry that leads to the route's network, if there is one, and
/// appends the route.
pub open spec fn apply_spec(s: Seq<Route>, event: RouteEvent) -> Seq<Route> {
    match event {
        RouteEvent::Add(r) => s.push(r),
        RouteEvent::Delete(r) => {
            let i = first_where(s, equal_to(r), 0);
            if i < s.len() {
                s.remove(i)
            } else {
                s
            }
        },
        RouteEvent::Change(r) => {
            let i = first_where(s, targets_of(r), 0);
            if i < s.len() {
                s.remove(i).push(r)
            } else {
                s.push(r)
            }
        },
    }
}

/// The first default route of `s`, if it has one.
pub open spec fn default_route_spec(s: Seq<Route>) -> Option<Route> {
    let i = first_where(s, defaults(), 0);
    if i < s.len() {
        Some(s[i])
    } else {
        None
    }
}

/// `first_where` gives a position from `from` up to the length; below the
/// length `p` holds there, and `p` holds of no entry between `from` and it.
pub proof fn lemma_first_where(s: Seq<Route>, p: spec_fn(Route) -> bool, from: int)
    requires
        0 <= from <= s.len(),
    ensures
        from <= first_where(s, p, from) <= s.len(),
        first_where(s, p, from) < s.len() ==> p(s[first_where(s, p, from)]),
        forall|j: int| from <= j < first_where(s, p, from) ==> !p(#[trigger] s[j]),
    decreases s.len() - from,
{
    if from < s.len() && !p(s[from]) {
        lemma_first_where(s, p, from + 1);
    }
}

/// The position `k` is what `first_where` gives from 0 when `p` holds at `k`
/// and of no entry before it.
pub proof fn lemma_first_where_is(s: Seq<Route>, p: spec_fn(Route) -> bool, k: int)
    requires
        0 <= k <= s.len(),
        k < s.len() ==> p(s[k]),
        forall|j: int| 0 <= j < k ==> !p(#[trigger] s[j]),
    ensures
        first_where(s, p, 0) == k,
{
    lemma_first_where(s, p, 0);
}

impl RouteEvent {
    /// The route that the event carries.
    pub open spec fn route_spec(self) -> Route {
        match self {
            RouteEvent::Add(r) => r,
            RouteEvent::Delete(r) => r,
            RouteEvent::Change(r) => r,
        }
    }

    /// The route that the event carries.
    pub fn route(&self) -> (r: Route)
        ensures
            r == self.route_spec(),
    {
        match self {
            RouteEvent::Add(r) => *r,
            RouteEvent::Delete(r) => *r,
            RouteEvent::Change(r) => *r,
        }
    }
}

/// The position of the first entry equal to `r`, if there is one.
pub fn position_equal(routes: &Vec<Route>, r: &Route) -> (found: Option<usize>)
    ensures
        match found {
            Some(i) => i < routes@.len() && i == first_where(routes@, equal_to(*r), 0),
            None => first_where(routes@, equal_to(*r), 0) == routes@.len(),
        },
{
    let mut i: usize = 0;
    while i < routes.len()
        invariant
            i <= routes@.len(),
            first_where(routes@, equal_to(*r), 0) == first_where(routes@, equal_to(*r), i as int),
        decreases routes@.len() - i,
    {
        if routes[i] == *r {
            return Some(i);
        }
        i += 1;
    }
    None
}

/// The position of the first entry that leads to the network of `r`, if
/// there is one.
pub fn position_same_target(routes: &Vec<Route>, r: &Route) -> (found: Option<usize>)
    ensures
        match found {
            Some(i) => i < routes@.len() && i == first_where(routes@, targets_of(*r), 0),
            None => first_where(routes@, targets_of(*r), 0) == routes@.len(),
        },
{
    let mut i: usize = 0;
    while i < routes.len()
        invariant
            i <= routes@.len(),
            first_where(routes@, targets_of(*r), 0) == first_where(
                routes@,
                targets_of(*r),
                i as int,
            ),
        decreases routes@.len() - i,
    {
        if routes[i].same_target(r) {
            return Some(i);
        }
        i += 1;
    }
    None
}

/// Brings the cache up to date with one event.
pub fn apply_event(routes: &mut Vec<Route>, event: &RouteEvent)
    ensures
        final(routes)@ == apply_spec(old(routes)@, *event),
{
    match event {
        RouteEvent::Add(r) => {
            routes.push(*r);
        },
        RouteEvent::Delete(r) => {
            match position_equal(routes, r) {
                Some(i) => {
                    routes.remove(i);
                },
                None => {},
            }
        },
        RouteEvent::Change(r) => {
            match position_same_target(routes, r) {
                Some(i) => {
                    routes.remove(i);
                },
                None => {},
            }
            routes.push(*r);
        },
    }
}

/// The first default route of the cache, or `None` where no entry has an
/// all-zero destination, prefix 0 and a gateway that is not all-zero.
pub fn find_default(routes: &Vec<Route>) -> (found: Option<Route>)
    ensures
        found == default_route_spec(routes@),
        found is None <==> forall|j: int|
            0 <= j < routes@.len() ==> !(#[trigger] routes@[j]).is_default_spec(),
        found is Some ==> found->Some_0.is_default_spec() && routes@.contains(found->Some_0),
{
    proof {
        lemma_first_where(routes@, defaults(), 0);
    }
    let mut i: usize = 0;
    while i < routes.len()
        invariant
            i <= routes@.len(),
            first_where(routes@, defaults(), 0) == first_where(routes@, defaults(), i as int),
        decreases routes@.len() - i,
    {
        if routes[i].is_default() {
            return Some(routes[i]);
        }
        i += 1;
    }
    None
}

/// A copy of the cache, entry by entry.
pub fn snapshot(routes: &Vec<Route>) -> (copy: Vec<Route>)
    ensures
        copy@ == routes@,
{
    let mut copy: Vec<Route> = Vec::new();
    let mut i: usize = 0;
    while i < routes.len()
        invariant
            i <= routes@.len(),
            copy@ == routes@.subrange(0, i as int),
        decreases routes@.len() - i,
    {
        copy.push(routes[i]);
        i += 1;
        assert(copy@ =~= routes@.subrange(0, i as int));
    }
    assert(copy@ =~= routes@);
    copy
}

/// An added route is the last entry afterwards, and every entry from before
/// keeps its place.
pub proof fn lemma_add_appends(s: Seq<Route>, r: Route)
    ensures
        apply_spec(s, RouteEvent::Add(r)).len() == s.len() + 1,
        apply_spec(s, RouteEvent::Add(r)).last() == r,
        forall|j: int| 0 <= j < s.len() ==> apply_spec(s, RouteEvent::Add(r))[j] == s[j],
{
}

/// Deleting `r` from a cache whose one entry is `r` leaves the cache empty.
pub proof fn lemma_delete_only_entry(r: Route)
    ensures
        apply_spec(seq![r], RouteEvent::Delete(r)) == Seq::<Route>::empty(),
{
    let s = seq![r];
    lemma_first_where_is(s, equal_to(r), 0);
    assert(s.remove(0) =~= Seq::<Route>::empty());
}

/// Deleting `r` from a cache with no entry equal to `r` leaves the cache
/// unchanged.
pub proof fn lemma_delete_absent(s: Seq<Route>, r: Route)
    requires
        forall|j: int| 0 <= j < s.len() ==> s[j] != r,
    ensures
        apply_spec(s, RouteEvent::Delete(r)) == s,
{
    lemma_first_where(s, equal_to(r), 0);
}

/// Deleting `r` from a cache whose first entry equal to `r` is at `k` removes
/// that entry and no other: the entries before `k` keep their places, those
/// after it move up by one.
pub proof fn lemma_delete_removes_first(s: Seq<Route>, r: Route, k: int)
    requires
        0 <= k < s.len(),
        s[k] == r,
        forall|j: int| 0 <= j < k ==> s[j] != r,
    ensures
        apply_spec(s, RouteEvent::Delete(r)) == s.remove(k),
        apply_spec(s, RouteEvent::Delete(r)).len() == s.len() - 1,
        forall|j: int| 0 <= j < k ==> apply_spec(s, RouteEvent::Delete(r))[j] == s[j],
        forall|j: int| k < j < s.len() ==> apply_spec(s, RouteEvent::Delete(r))[j - 1] == s[j],
{
    lemma_first_where_is(s, equal_to(r), k);
}

/// A change to `r`, in a cache whose first entry with the destination and
/// prefix of `r` is at `k`, replaces that entry with `r` and leaves all other
/// entries untouched: the cache keeps its length, `r` is its last entry, and
/// the other entries are the old ones without the one at `k`, in their old
/// order.
pub proof fn lemma_change_replaces(s: Seq<Route>, r: Route, k: int)
    requires
        0 <= k < s.len(),
        s[k].same_target_spec(r),
        forall|j: int| 0 <= j < k ==> !(#[trigger] s[j]).same_target_spec(r),
    ensures
        apply_spec(s, RouteEvent::Change(r)) == s.remove(k).push(r),
        apply_spec(s, RouteEvent::Change(r)).len() == s.len(),
        apply_spec(s, RouteEvent::Change(r)).last() == r,
        forall|j: int| 0 <= j < k ==> apply_spec(s, RouteEvent::Change(r))[j] == s[j],
        forall|j: int| k < j < s.len() ==> apply_spec(s, RouteEvent::Change(r))[j - 1] == s[j],
{
    lemma_first_where_is(s, targets_of(r), k);
}

/// A change to `r` in a cache with no entry of the destination and prefix of
/// `r` appends `r`: there is nothing to remove, and every entry from before
/// keeps its place.
pub proof fn lemma_change_absent(s: Seq<Route>, r: Route)
    requires
        forall|j: int| 0 <= j < s.len() ==> !(#[trigger] s[j]).same_target_spec(r),
    ensures
        apply_spec(s, RouteEvent::Change(r)) == s.push(r),
{
    lemma_first_where(s, targets_of(r), 0);
}

/// After a change to `r`, whatever the cache held, `r` is its last entry.
pub proof fn lemma_change_appends(s: Seq<Route>, r: Route)
    ensures
        apply_spec(s, RouteEvent::Change(r)).len() > 0,
        apply_spec(s, RouteEvent::Change(r)).last() == r,
{
    lemma_first_where(s, targets_of(r), 0);
}

/// A cache has no default route exactly when none of its entries has an
/// all-zero destination, prefix 0 and a gateway that is not all-zero.
pub proof fn lemma_no_default(s: Seq<Route>)
    ensures
        default_route_spec(s) is None <==> forall|j: int|
            0 <= j < s.len() ==> !(#[trigger] s[j]).is_default_spec(),
{
    lemma_first_where(s, defaults(), 0);
}

} // verus!
