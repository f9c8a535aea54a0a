//! The dispatcher of one connection.
//!
//! A connection delivers requests one after the other. Each ordinary request
//! is served by a task of its own, so that the dispatcher never waits for a
//! request. A request that asks for a WebTransport session hands the whole
//! connection over to the session manager. This module decides what follows
//! each inbound unit and what a single request is answered with; whoever
//! holds the connection waits, reports, and carries the decisions out.

use crate::response::{
    full_response, not_found_reply, response_view, ResponseOp, NOT_FOUND_BODY, STATUS_NOT_FOUND,
};
use crate::router::{resolved, Handler, Router};
use crate::text::{contains_text, mentions};
use vstd::prelude::*;
use vstd::string::*;

verus! {

/// The method of a request that asks for a tunnel.
pub const CONNECT: &'static str = "CONNECT";

/// The protocol that a session upgrade names.
pub const WEB_TRANSPORT: &'static str = "webtransport";

/// What the dispatcher reads of a request.
#[derive(Clone, Debug, PartialEq, Eq)]
pub struct RequestHead {
    /// The method, in upper case as on the wire.
    pub method: String,
    /// The path of the request's target, without the query.
    pub path: String,
    /// The protocol named by an extended CONNECT, if any.
    pub protocol: Option<String>,
}

fn same_text(left: &str, right: &str) -> (same: bool)
    ensures
        same == (left@ == right@),
{
    left.to_owned() == right.to_owned()
}

impl RequestHead {
    /// Whether the request asks to upgrade the connection to a WebTransport
    /// session: an extended CONNECT that names the protocol `webtransport`.
    pub open spec fn is_session_upgrade_spec(&self) -> bool {
        &&& self.method@ == CONNECT@
        &&& self.protocol matches Some(protocol) && protocol@ == WEB_TRANSPORT@
    }

    /// Whether the request asks to upgrade the connection to a WebTransport session.
    #[verifier::when_used_as_spec(is_session_upgrade_spec)]
    pub fn is_session_upgrade(&self) -> (upgrade: bool)
        ensures
            upgrade == self.is_session_upgrade_spec(),
    {
        match &self.protocol {
            Some(protocol) => same_text(self.method.as_str(), CONNECT) && same_text(
                protocol.as_str(),
                WEB_TRANSPORT,
            ),
            None => false,
        }
    }
}

/// The kinds of error that end a connection. They serve the log only: every
/// one of them is final, and none is retried.
#[derive(Clone, Copy, Debug, PartialEq, Eq, Structural)]
pub enum ErrorClass {
    /// The transport gave up on an idle connection.
    IdleTimeout,
    /// The peer closed the connection without an error.
    PeerClose,
    /// The connection was reset or closed under the dispatcher.
    Reset,
    /// Anything else.
    Other,
}

/// The class of a connection error, by what its description mentions.
pub open spec fn error_class(description: Seq<char>) -> ErrorClass {
    if mentions(description, "Timeout"@) {
        ErrorClass::IdleTimeout
    } else if mentions(description, "H3_NO_ERROR"@) || mentions(description, "ApplicationClose"@) {
        ErrorClass::PeerClose
    } else if mentions(description, "Reset"@) || mentions(description, "Closed"@) {
        ErrorClass::Reset
    } else {
        ErrorClass::Other
    }
}

/// Classifies a connection error by its description.
pub fn classify_error(description: &str) -> (class: ErrorClass)
    ensures
        class == error_class(description@),
{
    if contains_text(description, "Timeout") {
        ErrorClass::IdleTimeout
    } else if contains_text(description, "H3_NO_ERROR") || contains_text(
        description,
        "ApplicationClose",
    ) {
        ErrorClass::PeerClose
    } else if contains_text(description, "Reset") || contains_text(description, "Closed") {
        ErrorClass::Reset
    } else {
        ErrorClass::Other
    }
}

/// How a connection came to its end.
#[derive(Clone, Copy, Debug, PartialEq, Eq, Structural)]
pub enum Termination {
    /// The peer closed the connection in good order.
    Graceful,
    /// The connection failed.
    Failed(ErrorClass),
}

/// Where the dispatcher of a connection stands.
#[derive(Clone, Copy, Debug, PartialEq, Eq, Structural)]
pub enum ConnectionPhase {
    /// Accepting requests.
    Accepting,
    /// The connection belongs to a WebTransport session; the dispatcher is done.
    HandedOver,
    /// The connection is closed; the dispatcher is done.
    Closed(Termination),
}

/// The next inbound unit of a connection.
#[derive(Clone, Debug, PartialEq, Eq)]
pub enum Inbound {
    /// A request arrived and was resolved.
    Request(RequestHead),
    /// A request arrived and could not be resolved.
    Unresolved,
    /// The peer closed the connection in good order.
    GracefulClose,
    /// The connection failed; the text describes the error.
    ConnectionError(String),
}

/// What the holder of the connection does next.
#[derive(Clone, Debug, PartialEq, Eq)]
pub enum Dispatch {
    /// Serve the request in a task of its own, and go on accepting.
    Serve(RequestHead),
    /// Accept the session and let its manager own the connection; accept
    /// nothing more here.
    Upgrade(RequestHead),
    /// Go on accepting.
    Skip,
    /// Stop.
    Stop(Termination),
}

/// The transition of a dispatcher that is accepting.
pub open spec fn dispatch_step(inbound: Inbound) -> (ConnectionPhase, Dispatch) {
    match inbound {
        Inbound::Request(head) => if head.is_session_upgrade_spec() {
            (ConnectionPhase::HandedOver, Dispatch::Upgrade(head))
        } else {
            (ConnectionPhase::Accepting, Dispatch::Serve(head))
        },
        Inbound::Unresolved => (ConnectionPhase::Accepting, Dispatch::Skip),
        Inbound::GracefulClose => (
            ConnectionPhase::Closed(Termination::Graceful),
            Dispatch::Stop(Termination::Graceful),
        ),
        Inbound::ConnectionError(description) => (
            ConnectionPhase::Closed(Termination::Failed(error_class(description@))),
            Dispatch::Stop(Termination::Failed(error_class(description@))),
        ),
    }
}

/// The dispatcher of one connection.
#[derive(Clone, Copy, Debug, PartialEq, Eq)]
pub struct Dispatcher {
    pub phase: ConnectionPhase,
}

impl Dispatcher {
    /// The dispatcher of a fresh connection.
    pub fn new() -> (dispatcher: Self)
        ensures
            dispatcher.phase == ConnectionPhase::Accepting,
    {
        Dispatcher { phase: ConnectionPhase::Accepting }
    }

    /// Whether the dispatcher still accepts requests.
    pub fn is_accepting(&self) -> (accepting: bool)
        ensures
            accepting == (self.phase == ConnectionPhase::Accepting),
    {
        match self.phase {
            ConnectionPhase::Accepting => true,
            _ => false,
        }
    }

    /// Takes the next inbound unit and says what to do with it. A dispatcher
    /// that is done stays as it is and answers `None`.
    pub fn on_inbound(&mut self, inbound: Inbound) -> (dispatch: Option<Dispatch>)
        ensures
            old(self).phase == ConnectionPhase::Accepting ==> final(self).phase == dispatch_step(
                inbound,
            ).0 && dispatch == Some(dispatch_step(inbound).1),
            old(self).phase != ConnectionPhase::Accepting ==> final(self).phase == old(self).phase
                && dispatch.is_none(),
    {
        if !self.is_accepting() {
            return None;
        }
        match inbound {
            Inbound::Request(head) => {
                if head.is_session_upgrade() {
                    self.phase = ConnectionPhase::HandedOver;
                    Some(Dispatch::Upgrade(head))
                } else {
                    Some(Dispatch::Serve(head))
                }
            },
            Inbound::Unresolved => Some(Dispatch::Skip),
            Inbound::GracefulClose => {
                self.phase = ConnectionPhase::Closed(Termination::Graceful);
                Some(Dispatch::Stop(Termination::Graceful))
            },
            Inbound::ConnectionError(description) => {
                let end = Termination::Failed(classify_error(description.as_str()));
                self.phase = ConnectionPhase::Closed(end);
                Some(Dispatch::Stop(end))
            },
        }
    }
}

/// How one request is served.
#[derive(Debug, PartialEq, Eq)]
pub enum Served<'a, R, S> {
    /// Run this REST handler and answer with what it returns.
    Rest(&'a R),
    /// Hand the stream to this handler.
    Stream(&'a S),
    /// Answer that there is no such path.
    NotFound(Vec<ResponseOp>),
}

/// Decides how the request for `path` is served: by the handler registered
/// for exactly this path, or by the fixed answer for an unknown path.
pub fn handle_request<'a, R, S>(router: &'a Router<R, S>, path: &str) -> (served: Served<'a, R, S>)
    ensures
        match served {
            Served::Rest(handler) => resolved(router@, path@) == Some(
                Handler::<R, S>::Rest(*handler),
            ),
            Served::Stream(handler) => resolved(router@, path@) == Some(
                Handler::<R, S>::Stream(*handler),
            ),
            Served::NotFound(reply) => resolved(router@, path@).is_none() && response_view(reply@)
                == full_response(STATUS_NOT_FOUND, "application/json"@, NOT_FOUND_BODY@),
        },
{
    match router.get(path) {
        Some(Handler::Rest(handler)) => Served::Rest(handler),
        Some(Handler::Stream(handler)) => Served::Stream(handler),
        None => Served::NotFound(not_found_reply()),
    }
}

/// The phase that a dispatcher reaches from `phase` through the inbound
/// units `units`, and what it asks for on the way. A dispatcher that is done
/// asks for nothing.
pub open spec fn dispatch_run(phase: ConnectionPhase, units: Seq<Inbound>) -> (
    ConnectionPhase,
    Seq<Dispatch>,
)
    decreases units.len(),
{
    if units.len() == 0 {
        (phase, Seq::empty())
    } else {
        let (reached, asked) = dispatch_run(phase, units.drop_last());
        if reached == ConnectionPhase::Accepting {
            (dispatch_step(units.last()).0, asked.push(dispatch_step(units.last()).1))
        } else {
            (reached, asked)
        }
    }
}

/// Requests on one connection are served independently of each other:
/// however many ordinary requests arrive, each gets exactly one task of its
/// own, for its own head, and the dispatcher goes on accepting.
pub proof fn lemma_each_request_served_once(heads: Seq<RequestHead>)
    requires
        forall|i: int| 0 <= i < heads.len() ==> !heads[i].is_session_upgrade_spec(),
    ensures
        dispatch_run(
            ConnectionPhase::Accepting,
            Seq::new(heads.len(), |i: int| Inbound::Request(heads[i])),
        ) == (ConnectionPhase::Accepting, Seq::new(heads.len(), |i: int| Dispatch::Serve(heads[i]))),
    decreases heads.len(),
{
    let units = Seq::new(heads.len(), |i: int| Inbound::Request(heads[i]));
    let served = Seq::new(heads.len(), |i: int| Dispatch::Serve(heads[i]));
    if heads.len() == 0 {
        assert(dispatch_run(ConnectionPhase::Accepting, units).1 =~= served);
    } else {
        let front = heads.drop_last();
        lemma_each_request_served_once(front);
        assert(units.drop_last() =~= Seq::new(front.len(), |i: int| Inbound::Request(front[i])));
        assert(Seq::new(front.len(), |i: int| Dispatch::Serve(front[i])).push(
            Dispatch::Serve(heads.last()),
        ) =~= served);
    }
}

/// Once a connection is handed over to a session or closed, the dispatcher
/// dispatches nothing more on it, whatever arrives.
pub proof fn lemma_dispatcher_end_is_final(phase: ConnectionPhase, units: Seq<Inbound>)
    requires
        phase != ConnectionPhase::Accepting,
    ensures
        dispatch_run(phase, units) == (phase, Seq::<Dispatch>::empty()),
    decreases units.len(),
{
    if units.len() > 0 {
        lemma_dispatcher_end_is_final(phase, units.drop_last());
    }
}

/// What each request of a batch resolves to.
pub open spec fn resolutions<R, S>(table: Map<Seq<char>, Handler<R, S>>, paths: Seq<Seq<char>>) -> Seq<
    Option<Handler<R, S>>,
> {
    Seq::new(paths.len(), |i: int| resolved(table, paths[i]))
}

/// A batch of requests in another order: the request at place `k` is the
/// one that stood at place `order[k]`.
pub open spec fn reordered(paths: Seq<Seq<char>>, order: Seq<int>) -> Seq<Seq<char>> {
    Seq::new(order.len(), |k: int| paths[order[k]])
}

/// What a request gets is decided by its own path and the routing table
/// alone: in whatever order a batch of requests is looked at, each one
/// resolves to the handler of its own path.
pub proof fn lemma_resolution_ignores_order<R, S>(
    table: Map<Seq<char>, Handler<R, S>>,
    paths: Seq<Seq<char>>,
    order: Seq<int>,
)
    requires
        forall|k: int| 0 <= k < order.len() ==> 0 <= #[trigger] order[k] < paths.len(),
    ensures
        resolutions(table, reordered(paths, order)).len() == order.len(),
        forall|k: int|
            0 <= k < order.len() ==> #[trigger] resolutions(table, reordered(paths, order))[k]
                == resolutions(table, paths)[order[k]],
{
}

} // verus!
