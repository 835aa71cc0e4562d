//! The decisions of the platform operator: what it asks of the kernel, and
//! what it makes of the answers. The native calls themselves are made by the
//! caller, who hands their plain results in.

use crate::addr::IpAddr;
use crate::cache::RouteEvent;
use crate::error::check_status;
use crate::error::code_to_error;
use crate::error::kind_of_code;
use crate::error::message_text;
use crate::error::ErrorKind;
use crate::error::RouteError;
use crate::error::ERROR_OBJECT_ALREADY_EXISTS;
use crate::error::NO_ERROR;
use crate::native::NativeRow;
use crate::route::Route;
use vstd::prelude::*;

verus! {

/// The notification kind for a changed parameter of an entry.
pub const MIB_PARAMETER_NOTIFICATION: i32 = 0;

/// The notification kind for a new entry.
pub const MIB_ADD_INSTANCE: i32 = 1;

/// The notification kind for a removed entry.
pub const MIB_DELETE_INSTANCE: i32 = 2;

/// The native calls that the operator makes.
#[derive(Clone, Copy, Debug, PartialEq, Eq, Hash, Structural)]
pub enum Operation {
    Register,
    ReadTable,
    AddRoute,
    DeleteRoute,
    BestInterface,
}

/// The description of a native call, as it stands at the start of an error
/// message.
pub open spec fn operation_text(op: Operation) -> Seq<char> {
    match op {
        Operation::Register => "error notify route change"@,
        Operation::ReadTable => "Error getting table"@,
        Operation::AddRoute => "error creating entry"@,
        Operation::DeleteRoute => "error deleting entry"@,
        Operation::BestInterface => "Failed to get best interface"@,
    }
}

impl Operation {
    /// The description of the call.
    pub fn describe(&self) -> (s: &'static str)
        ensures
            s@ == operation_text(*self),
    {
        match self {
            Operation::Register => "error notify route change",
            Operation::ReadTable => "Error getting table",
            Operation::AddRoute => "error creating entry",
            Operation::DeleteRoute => "error deleting entry",
            Operation::BestInterface => "Failed to get best interface",
        }
    }

    /// What the status code of the call means: success for code 0, otherwise
    /// the error that the code is mapped to, with the call's description in
    /// its message.
    pub fn outcome(&self, code: u32) -> (r: Result<(), RouteError>)
        ensures
            r is Ok <==> code == NO_ERROR,
            r is Err ==> r->Err_0.kind == kind_of_code(code) && r->Err_0.message@ == message_text(
                operation_text(*self),
                kind_of_code(code),
            ),
    {
        check_status(code, self.describe())
    }
}

/// The event that a kernel notification of the given kind about `route`
/// stands for: a change for a changed parameter, an addition for a new
/// entry, a deletion for a removed one, and none for every other kind.
pub open spec fn event_for_spec(kind: i32, route: Route) -> Option<RouteEvent> {
    if kind == MIB_PARAMETER_NOTIFICATION {
        Some(RouteEvent::Change(route))
    } else if kind == MIB_ADD_INSTANCE {
        Some(RouteEvent::Add(route))
    } else if kind == MIB_DELETE_INSTANCE {
        Some(RouteEvent::Delete(route))
    } else {
        None
    }
}

/// The event to pass on for a kernel notification of the given kind about
/// the given row, or `None` for a kind that is ignored.
pub fn event_for(kind: i32, row: &NativeRow) -> (event: Option<RouteEvent>)
    requires
        row.is_decodable_spec(),
    ensures
        event == event_for_spec(kind, row.route_spec()),
{
    let route = Route::from_row(row);
    if kind == MIB_PARAMETER_NOTIFICATION {
        Some(RouteEvent::Change(route))
    } else if kind == MIB_ADD_INSTANCE {
        Some(RouteEvent::Add(route))
    } else if kind == MIB_DELETE_INSTANCE {
        Some(RouteEvent::Delete(route))
    } else {
        None
    }
}

/// The routes that the rows of a table stand for, in the table's order.
pub fn routes_from_rows(rows: &Vec<NativeRow>) -> (routes: Vec<Route>)
    requires
        forall|i: int| 0 <= i < rows@.len() ==> (#[trigger] rows@[i]).is_decodable_spec(),
    ensures
        routes@.len() == rows@.len(),
        forall|i: int| 0 <= i < rows@.len() ==> routes@[i] == (#[trigger] rows@[i]).route_spec(),
{
    let mut routes: Vec<Route> = Vec::new();
    let mut i: usize = 0;
    while i < rows.len()
        invariant
            i <= rows@.len(),
            routes@.len() == i,
            forall|j: int| 0 <= j < rows@.len() ==> (#[trigger] rows@[j]).is_decodable_spec(),
            forall|j: int| 0 <= j < i ==> routes@[j] == (#[trigger] rows@[j]).route_spec(),
        decreases rows@.len() - i,
    {
        routes.push(Route::from_row(&rows[i]));
        i += 1;
    }
    routes
}

/// True iff the route names no interface, neither by index nor by
/// identifier, so that one has to be found for its gateway before the route
/// is added.
pub open spec fn needs_interface_spec(route: Route) -> bool {
    route.ifindex is None && route.luid is None
}

/// The route that is submitted when `route` is added and `best_interface` is
/// the interface that the kernel found best for its gateway: `route` itself
/// where it names an interface, otherwise `route` with that index.
pub open spec fn submitted_spec(route: Route, best_interface: u32) -> Route {
    if needs_interface_spec(route) {
        Route { ifindex: Some(best_interface), ..route }
    } else {
        route
    }
}

/// The first step of adding a route.
#[derive(Clone, Copy, Debug, PartialEq, Eq)]
pub enum AddPlan {
    /// The route names an interface: submit this row.
    Submit(NativeRow),
    /// The route names none: ask the kernel for the best interface towards
    /// this address, then submit what `add_request` gives.
    ResolveInterface(IpAddr),
}

/// Whether an interface has to be found before the route is added.
pub fn needs_interface(route: &Route) -> (r: bool)
    ensures
        r == needs_interface_spec(*route),
{
    route.ifindex.is_none() && route.luid.is_none()
}

/// Decides how to add `route`: at once where it names an interface, after a
/// query for the best interface towards its gateway where it names none.
pub fn plan_add(route: &Route) -> (plan: AddPlan)
    ensures
        match plan {
            AddPlan::Submit(row) => !needs_interface_spec(*route) && row.encodes(*route),
            AddPlan::ResolveInterface(ip) => needs_interface_spec(*route) && ip == route.gateway,
        },
{
    if needs_interface(route) {
        AddPlan::ResolveInterface(route.gateway)
    } else {
        AddPlan::Submit(NativeRow::from_route(route))
    }
}

/// The row to submit for `route` once the kernel has named `best_interface`
/// as the best one towards its gateway.
pub fn add_request(route: &Route, best_interface: u32) -> (row: NativeRow)
    ensures
        row.encodes(submitted_spec(*route, best_interface)),
{
    if needs_interface(route) {
        let filled = route.ifindex(best_interface);
        NativeRow::from_route(&filled)
    } else {
        NativeRow::from_route(route)
    }
}

/// The row to submit for the removal of `route`.
pub fn delete_request(route: &Route) -> (row: NativeRow)
    ensures
        row.encodes(*route),
{
    NativeRow::from_route(route)
}

/// What a best-interface query gave: the index where the status code is 0,
/// otherwise the error that the code is mapped to.
pub fn best_interface_result(code: u32, index: u32) -> (r: Result<u32, RouteError>)
    ensures
        r is Ok <==> code == NO_ERROR,
        r is Ok ==> r->Ok_0 == index,
        r is Err ==> r->Err_0.kind == kind_of_code(code) && r->Err_0.message@ == message_text(
            operation_text(Operation::BestInterface),
            kind_of_code(code),
        ),
{
    match Operation::BestInterface.outcome(code) {
        Ok(()) => Ok(index),
        Err(e) => Err(e),
    }
}

/// What the operator remembers of its subscription to kernel notifications:
/// whether it has registered, and the handle by which the subscription is
/// cancelled, where the kernel gave a valid one.
#[derive(Clone, Copy, Debug, PartialEq, Eq, Hash, Structural)]
pub struct Listener {
    pub registered: bool,
    pub notify_handle: Option<isize>,
}

impl Listener {
    /// True iff a registration has succeeded on this listener.
    pub open spec fn is_registered_spec(self) -> bool {
        self.registered
    }

    /// The kind of error with which `init` refuses to register: that of an
    /// existing subscription where a registration has succeeded before, none
    /// otherwise.
    pub open spec fn refusal_spec(self) -> Option<ErrorKind> {
        if self.is_registered_spec() {
            Some(ErrorKind::AlreadyExists)
        } else {
            None
        }
    }

    /// The listener after a registration call that ended with status `code`
    /// and gave `handle` (`None` for an invalid handle). A call that
    /// succeeded is remembered, whatever the handle; the handle is kept where
    /// it is valid. A call that failed leaves the listener as it was.
    pub open spec fn after_registration(self, code: u32, handle: Option<isize>) -> Listener {
        if code == NO_ERROR {
            Listener {
                registered: true,
                notify_handle: if handle is Some {
                    handle
                } else {
                    self.notify_handle
                },
            }
        } else {
            self
        }
    }

    /// A listener that has not registered.
    pub fn new() -> (l: Listener)
        ensures
            !l.is_registered_spec(),
            l.notify_handle is None,
    {
        Listener { registered: false, notify_handle: None }
    }

    /// Whether a registration has succeeded on this listener.
    pub fn is_registered(&self) -> (r: bool)
        ensures
            r == self.is_registered_spec(),
    {
        self.registered
    }

    /// The first step of `init`: refuses with `AlreadyExists` where a
    /// registration has succeeded before, and otherwise tells the caller to
    /// register with the kernel.
    pub fn begin_init(&self) -> (r: Result<(), RouteError>)
        ensures
            match r {
                Ok(_) => self.refusal_spec() is None,
                Err(e) => self.refusal_spec() == Some(e.kind) && e.message@ == message_text(
                    "Already registered"@,
                    ErrorKind::AlreadyExists,
                ),
            },
    {
        if self.registered {
            Err(code_to_error(ERROR_OBJECT_ALREADY_EXISTS, "Already registered"))
        } else {
            Ok(())
        }
    }

    /// The second step of `init`, after the registration call: fails with the
    /// mapped error where the call failed, and otherwise remembers the
    /// registration and keeps the handle, if it is a valid one (`None` stands
    /// for an invalid handle).
    pub fn finish_init(&mut self, code: u32, handle: Option<isize>) -> (r: Result<(), RouteError>)
        ensures
            *final(self) == old(self).after_registration(code, handle),
            r is Ok <==> code == NO_ERROR,
            r is Err ==> r->Err_0.kind == kind_of_code(code) && r->Err_0.message@ == message_text(
                operation_text(Operation::Register),
                kind_of_code(code),
            ),
    {
        match Operation::Register.outcome(code) {
            Ok(()) => {
                self.registered = true;
                if handle.is_some() {
                    self.notify_handle = handle;
                }
                Ok(())
            },
            Err(e) => Err(e),
        }
    }

    /// Teardown: gives out the handle of the subscription to cancel, if one
    /// is held, and holds none afterwards. That the listener has registered
    /// stays on record: a listener registers once.
    pub fn release(&mut self) -> (handle: Option<isize>)
        ensures
            handle == old(self).notify_handle,
            final(self).notify_handle is None,
            final(self).registered == old(self).registered,
    {
        let handle = self.notify_handle;
        self.notify_handle = None;
        handle
    }
}

/// Calling `init` twice: after an `init` whose registration succeeded, with
/// a valid handle or without one, the next `init` is refused with
/// `AlreadyExists`, whatever the listener held before; a valid handle is
/// kept.
pub proof fn lemma_second_init_refused(before: Listener, handle: Option<isize>)
    ensures
        before.after_registration(NO_ERROR, handle).refusal_spec() == Some(
            ErrorKind::AlreadyExists,
        ),
        handle is Some ==> before.after_registration(NO_ERROR, handle).notify_handle == handle,
{
}

/// A listener that refuses `init` goes on refusing it: neither a further
/// registration call, whatever its outcome, nor the release of the handle
/// makes it forget that it has registered.
pub proof fn lemma_refusal_is_kept(before: Listener, code: u32, handle: Option<isize>)
    requires
        before.refusal_spec() == Some(ErrorKind::AlreadyExists),
    ensures
        before.after_registration(code, handle).refusal_spec() == Some(ErrorKind::AlreadyExists),
        (Listener { notify_handle: None, ..before }).refusal_spec() == Some(
            ErrorKind::AlreadyExists,
        ),
{
}

/// A registration that failed leaves the listener as it was.
pub proof fn lemma_failed_init_keeps_state(before: Listener, code: u32, handle: Option<isize>)
    requires
        code != NO_ERROR,
    ensures
        before.after_registration(code, handle) == before,
{
}

} // verus!
