//! The route manager: a cached snapshot of the routing table, kept up to
//! date by the events that the operator's channel delivers, which it passes
//! on to subscribers.

use crate::cache::apply_event;
use crate::cache::apply_spec;
use crate::cache::default_route_spec;
use crate::cache::find_default;
use crate::cache::snapshot;
use crate::cache::RouteEvent;
use crate::route::Route;
use crossbeam_channel::Receiver;
use crossbeam_channel::Sender;
use vstd::prelude::*;

verus! {

/// The sending end of a `crossbeam_channel` channel. Nothing is known of
/// what it holds.
#[verifier::external_type_specification]
#[verifier::external_body]
#[verifier::reject_recursive_types(T)]
pub struct ExSender<T>(Sender<T>);

/// The receiving end of a `crossbeam_channel` channel. Nothing is known of
/// what it holds.
#[verifier::external_type_specification]
#[verifier::external_body]
#[verifier::reject_recursive_types(T)]
pub struct ExReceiver<T>(Receiver<T>);

/// Why a poll failed.
#[derive(Clone, Copy, Debug, PartialEq, Eq, Hash, Structural)]
pub enum ManagerError {
    /// The operator's channel is closed and empty: no event will come.
    SourceClosed,
    /// The event was applied to the cache, but could not be passed on.
    NoSubscriber,
}

/// Opens an unbounded channel for events (`crossbeam_channel::unbounded`).
/// Nothing is claimed of the two ends.
#[verifier::external_body]
fn open_channel() -> (ends: (Sender<RouteEvent>, Receiver<RouteEvent>)) {
    crossbeam_channel::unbounded()
}

/// Takes the next event from a channel (`Receiver::recv`), waiting until
/// there is one; `None` once the channel is empty and every sender is gone.
/// Which event comes depends on the senders, so nothing is claimed of it.
#[verifier::external_body]
fn receive(source: &Receiver<RouteEvent>) -> (event: Option<RouteEvent>) {
    match source.recv() {
        Ok(event) => Some(event),
        Err(_) => None,
    }
}

/// Puts an event into a channel (`Sender::send`) and reports whether the
/// channel took it; it does not where every receiver is gone. Nothing is
/// claimed of the answer.
#[verifier::external_body]
fn publish(sink: &Sender<RouteEvent>, event: RouteEvent) -> (sent: bool) {
    sink.send(event).is_ok()
}

/// Whether two receiving ends belong to the same channel: what
/// `Receiver::same_channel` returns for them.
pub uninterp spec fn same_channel(a: Receiver<RouteEvent>, b: Receiver<RouteEvent>) -> bool;

/// Another handle to the same receiving end (`Receiver::clone`): the handle
/// belongs to the channel of `source`, so that `Receiver::same_channel` holds
/// of the two.
#[verifier::external_body]
fn share(source: &Receiver<RouteEvent>) -> (handle: Receiver<RouteEvent>)
    ensures
        same_channel(handle, *source),
{
    source.clone()
}

/// Asks whether two receiving ends belong to the same channel
/// (`Receiver::same_channel`).
#[verifier::external_body]
fn is_same_channel(a: &Receiver<RouteEvent>, b: &Receiver<RouteEvent>) -> (r: bool)
    ensures
        r == same_channel(*a, *b),
{
    a.same_channel(b)
}

/// What passing an event on came to: success where the channel took the
/// event, `NoSubscriber` where it did not.
pub fn publish_result(sent: bool) -> (r: Result<(), ManagerError>)
    ensures
        r == (if sent {
            Ok::<(), ManagerError>(())
        } else {
            Err::<(), ManagerError>(ManagerError::NoSubscriber)
        }),
{
    if sent {
        Ok(())
    } else {
        Err(ManagerError::NoSubscriber)
    }
}

/// Owns the cached snapshot of the routing table, drains the operator's
/// events into it and republishes them.
pub struct RouteManager {
    routes: Vec<Route>,
    operator_receiver: Receiver<RouteEvent>,
    subscribers: Receiver<RouteEvent>,
    producer: Sender<RouteEvent>,
}

impl View for RouteManager {
    type V = Seq<Route>;

    /// The cache.
    closed spec fn view(&self) -> Seq<Route> {
        self.routes@
    }
}

impl RouteManager {
    /// The receiving end of the channel on which the manager passes events
    /// on. It stays the same for the whole life of the manager.
    pub closed spec fn subscription(&self) -> Receiver<RouteEvent> {
        self.subscribers
    }

    /// The receiving end from which the manager takes the operator's events.
    /// It stays the same for the whole life of the manager.
    pub closed spec fn source(&self) -> Receiver<RouteEvent> {
        self.operator_receiver
    }

    /// A manager whose cache holds `routes`, the table as it was read, and
    /// which takes its events from `operator_receiver`.
    pub fn new(operator_receiver: Receiver<RouteEvent>, routes: Vec<Route>) -> (manager: Self)
        ensures
            manager@ == routes@,
            manager.source() == operator_receiver,
    {
        let (producer, subscribers) = open_channel();
        RouteManager { routes, operator_receiver, subscribers, producer }
    }

    /// Applies one event to the cache, then passes the same event on to the
    /// subscribers. The cache follows the event whether or not it could be
    /// passed on.
    pub fn handle_event(&mut self, event: RouteEvent) -> (r: Result<(), ManagerError>)
        ensures
            final(self)@ == apply_spec(old(self)@, event),
            final(self).subscription() == old(self).subscription(),
            final(self).source() == old(self).source(),
            r is Err ==> r == Err::<(), ManagerError>(ManagerError::NoSubscriber),
    {
        apply_event(&mut self.routes, &event);
        publish_result(publish(&self.producer, event))
    }

    /// Waits for the next event of the operator, applies it to the cache and
    /// passes it on to the subscribers. Where the operator's channel is
    /// closed the cache stays as it is; otherwise the cache is the old one
    /// after some one event.
    pub fn poll(&mut self) -> (r: Result<(), ManagerError>)
        ensures
            r == Err::<(), ManagerError>(ManagerError::SourceClosed) ==> final(self)@ == old(
                self,
            )@,
            r != Err::<(), ManagerError>(ManagerError::SourceClosed) ==> exists|e: RouteEvent|
                final(self)@ == #[trigger] apply_spec(old(self)@, e),
            final(self).subscription() == old(self).subscription(),
            final(self).source() == old(self).source(),
    {
        match receive(&self.operator_receiver) {
            Some(event) => self.handle_event(event),
            None => Err(ManagerError::SourceClosed),
        }
    }

    /// A handle on which the events come that `poll` passes on. Every handle
    /// belongs to the manager's one channel for subscribers, so all handles
    /// draw from one queue: each event goes to one of them.
    pub fn subscribe_route_change(&self) -> (handle: Receiver<RouteEvent>)
        ensures
            same_channel(handle, self.subscription()),
    {
        share(&self.subscribers)
    }

    /// Whether `handle` belongs to the manager's channel for subscribers, as
    /// every handle does that `subscribe_route_change` gave out.
    pub fn is_subscription(&self, handle: &Receiver<RouteEvent>) -> (r: bool)
        ensures
            r == same_channel(*handle, self.subscription()),
    {
        is_same_channel(handle, &self.subscribers)
    }

    /// A copy of the cache as it is now.
    pub fn routes(&self) -> (copy: Vec<Route>)
        ensures
            copy@ == self@,
    {
        snapshot(&self.routes)
    }

    /// The first default route of the cache, or `None` where no entry has an
    /// all-zero destination, prefix 0 and a gateway that is not all-zero.
    pub fn default_route(&self) -> (found: Option<Route>)
        ensures
            found == default_route_spec(self@),
            found is None <==> forall|j: int|
                0 <= j < self@.len() ==> !(#[trigger] self@[j]).is_default_spec(),
            found is Some ==> found->Some_0.is_default_spec() && self@.contains(found->Some_0),
    {
        find_default(&self.routes)
    }
}

} // verus!
